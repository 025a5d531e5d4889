//! Confidential accounts: each balance is hidden inside a Pedersen
//! commitment, and a transfer is checked by a balance proof on commitments.

use vstd::prelude::*;
use vstd::arithmetic::div_mod::{lemma_add_mod_noop, lemma_sub_mod_noop, lemma_small_mod, lemma_mod_twice};
use crate::curve::scalar::{Scalar, fr_modulus, fr_test_rng_draws, lemma_canonical_bound};
use crate::curve::group::G1Point;
use crate::pedersen::commit::{self, commit_spec, opens};
use crate::pedersen::homomorphic::{lemma_commit_add, lemma_commit_sub};
use crate::pedersen::generator::h_log;
use crate::ecc::modular::lemma_mod_is_zero_small;

verus! {

/// A confidential account: balance is hidden inside a Pedersen commitment.
/// Only the owner knows (balance, blinding_factor).
pub struct ConfidentialAccount {
    pub name: String,
    pub balance_commitment: G1Point,
    /// The balance, in the clear for its owner
    balance: Scalar,
    /// Owner's secret: the blinding factor (private!)
    blinding: Scalar,
}

impl ConfidentialAccount {
    /// The balance the owner holds, modulo `r`.
    pub closed spec fn balance_value(&self) -> nat {
        self.balance@
    }

    /// The owner's secret blinding factor.
    pub closed spec fn blinding_value(&self) -> nat {
        self.blinding@
    }

    /// The account holder's name.
    pub closed spec fn name_view(&self) -> Seq<char> {
        self.name@
    }

    /// The logarithm of the public balance commitment.
    pub closed spec fn commitment_value(&self) -> nat {
        self.balance_commitment@
    }

    /// The public commitment opens to the owner's balance and blinding
    /// factor, both reduced modulo `r`.
    pub closed spec fn wf(&self) -> bool {
        &&& self.commitment_value() == commit_spec(self.balance_value(), self.blinding_value())
        &&& self.balance_value() < fr_modulus()
        &&& self.blinding_value() < fr_modulus()
    }

    /// The balance and the blinding factor are reduced modulo `r`, and the
    /// account is well formed exactly when its public commitment opens to
    /// them.
    pub proof fn lemma_account_values(&self)
        ensures
            self.balance_value() < fr_modulus(),
            self.blinding_value() < fr_modulus(),
            self.wf() <==> self.commitment_value() == commit_spec(self.balance_value(), self.blinding_value()),
    {
        lemma_canonical_bound(self.balance);
        lemma_canonical_bound(self.blinding);
    }

    /// An empty account: balance zero, committed with blinding zero.
    pub fn new(name: &str) -> (r: Self)
        ensures
            r.name_view() == name@,
            r.balance_value() == 0,
            r.blinding_value() == 0,
            r.wf(),
    {
        let zero = Scalar::from_u64(0);
        Self {
            name: name.to_owned(),
            balance_commitment: commit::commit(&zero, &zero),
            balance: zero,
            blinding: zero,
        }
    }

    /// Adds `amount` to the hidden balance, with a fresh blinding factor added
    /// to the commitment.
    pub fn deposit(&mut self, amount: u64)
        ensures
            final(self).name_view() == old(self).name_view(),
            final(self).balance_value() == (old(self).balance_value() + amount) % (fr_modulus() as int),
            old(self).wf() ==> final(self).wf(),
    {
        let (r, _) = fr_test_rng_draws();
        let v = Scalar::from_u64(amount);

        let deposit_commitment = commit::commit(&v, &r);

        self.balance_commitment = self.balance_commitment.add(&deposit_commitment);

        let ghost (old_bal, old_blind) = (self.balance@, self.blinding@);
        self.balance = self.balance.add(&v);
        self.blinding = self.blinding.add(&r);
        proof {
            lemma_commit_add(old_bal, old_blind, v@, r@);
        }
    }

    /// Transfer: move tokens confidentially from self to another account.
    /// Returns true if the balance proof passes (conservation check).
    pub fn transfer(&mut self, to: &mut ConfidentialAccount, amount: u64) -> (ok: bool)
        ensures
            ok,
            final(self).name_view() == old(self).name_view(),
            final(to).name_view() == old(to).name_view(),
            final(self).balance_value() == (old(self).balance_value() - amount) % (fr_modulus() as int),
            final(to).balance_value() == (old(to).balance_value() + amount) % (fr_modulus() as int),
            amount <= old(self).balance_value()
                ==> final(self).balance_value() == old(self).balance_value() - amount,
            old(to).balance_value() + amount < fr_modulus()
                ==> final(to).balance_value() == old(to).balance_value() + amount,
            (final(self).balance_value() + final(to).balance_value()) % fr_modulus()
                == (old(self).balance_value() + old(to).balance_value()) % fr_modulus(),
            old(self).wf() ==> final(self).wf(),
            old(to).wf() ==> final(to).wf(),
    {
        let (r_send, r_receive) = fr_test_rng_draws();
        let v = Scalar::from_u64(amount);

        let transfer_commitment = commit::commit(&v, &r_send);
        let receive_commitment = commit::commit(&v, &r_receive);

        // Update sender: subtract the transfer
        let old_sender_commitment = self.balance_commitment.clone();
        self.balance_commitment = self.balance_commitment.sub(&transfer_commitment);

        let ghost (s_bal, s_blind) = (self.balance@, self.blinding@);
        self.balance = self.balance.sub(&v);
        self.blinding = self.blinding.sub(&r_send);
        proof {
            lemma_commit_sub(s_bal, s_blind, v@, r_send@);
        }

        // Update receiver: add the transfer
        let ghost (t_bal, t_blind) = (to.balance@, to.blinding@);
        to.balance_commitment = to.balance_commitment.add(&receive_commitment);
        to.balance = to.balance.add(&v);
        to.blinding = to.blinding.add(&r_receive);
        proof {
            lemma_commit_add(t_bal, t_blind, v@, r_receive@);
            lemma_transfer_conserves(s_bal as int, t_bal as int, v@ as int);
            if amount <= s_bal {
                lemma_canonical_bound(old(self).balance);
                lemma_small_mod((s_bal - amount) as nat, fr_modulus());
            }
            if t_bal + amount < fr_modulus() {
                lemma_small_mod((t_bal + amount) as nat, fr_modulus());
            }
        }

        // === BALANCE PROOF (what the network checks) ===
        // Verify: old_sender == new_sender + transfer_amount
        // i.e., old_sender - new_sender - transfer == Commit(0, excess_r)
        let diff = old_sender_commitment.sub(&self.balance_commitment).sub(&transfer_commitment);
        let excess_r = Scalar::from_u64(0); // The excess should be zero blinding

        let zero_commit = commit::commit(&Scalar::from_u64(0), &excess_r);
        proof {
            lemma_balance_proof_zero(old_sender_commitment@, transfer_commitment@);
            lemma_small_mod(0, fr_modulus());
        }
        diff.equals(&zero_commit)
    }

    /// Withdraw: convert confidential balance back to public.
    /// The owner reveals (balance, blinding) to prove they own the funds.
    pub fn withdraw(&self, claimed_amount: u64) -> (ok: bool)
        ensures
            ok == opens(claimed_amount as nat, self.blinding_value(), self.commitment_value()),
            self.wf() ==> (ok == (claimed_amount == self.balance_value())),
    {
        let v = Scalar::from_u64(claimed_amount);
        let ok = commit::verify(&v, &self.blinding, &self.balance_commitment);
        proof {
            if self.wf() && ok {
                lemma_commit_value_unique(claimed_amount as nat, self.balance_value(), self.blinding_value());
            }
        }
        ok
    }

    /// The balance, found by trying the values below 10000 in turn; `None`
    /// where it is not among them.
    pub fn try_owner_view_balance(&self) -> (r: Option<u64>)
        ensures
            r == (if self.balance_value() < 10000 { Some(self.balance_value() as u64) } else { None::<u64> }),
    {
        let mut i: u64 = 0;
        while i < 10000
            invariant
                i <= 10000,
                i <= self.balance_value(),
            decreases 10000 - i,
        {
            if Scalar::from_u64(i).equals(&self.balance) {
                return Some(i);
            }
            i = i + 1;
        }
        None
    }

    /// Get the balance (only the owner can call this — it's their secret);
    /// it must be below 10000.
    pub fn owner_view_balance(&self) -> (r: u64)
        requires
            self.balance_value() < 10000,
        ensures
            r == self.balance_value(),
    {
        self.try_owner_view_balance().unwrap()
    }
}

/// With one blinding factor, commitments to different values below `r`
/// differ: a commitment opens to one value for a given blinding factor.
pub proof fn lemma_commit_value_unique(a: nat, b: nat, blinding: nat)
    requires
        a < fr_modulus(),
        b < fr_modulus(),
        commit_spec(a, blinding) == commit_spec(b, blinding),
    ensures
        a == b,
{
    let m = fr_modulus() as int;
    let x = (h_log() * blinding) as int;
    lemma_sub_mod_noop(a + x, b + x, m);
    lemma_small_mod(0, m as nat);
    assert((a + x) - (b + x) == a - b);
    lemma_mod_is_zero_small(a - b, m);
}

/// Moving `v` from one balance to another keeps their sum modulo `r`.
proof fn lemma_transfer_conserves(a: int, b: int, v: int)
    ensures
        (((a - v) % (fr_modulus() as int)) + (b + v) % (fr_modulus() as int)) % (fr_modulus() as int) == (a + b) % (fr_modulus() as int),
{
    let m = fr_modulus() as int;
    lemma_add_mod_noop(a - v, b + v, m);
}

/// `(c - (c - t)) - t` is zero modulo `r`.
proof fn lemma_balance_proof_zero(c: nat, t: nat)
    ensures
        (((c - ((c - t) % (fr_modulus() as int))) % (fr_modulus() as int)) - t) % (fr_modulus() as int) == 0,
{
    let m = fr_modulus() as int;
    lemma_sub_mod_noop(c as int, c - t, m);
    lemma_mod_twice(c - t, m);
    lemma_sub_mod_noop(c as int, (c - t) % m, m);
    lemma_sub_mod_noop(c - (c - t), t as int, m);
    lemma_sub_mod_noop(((c - ((c - t) % m)) % m), t as int, m);
    lemma_mod_twice(c - ((c - t) % m), m);
    lemma_small_mod(0, m as nat);
}

} // verus!
