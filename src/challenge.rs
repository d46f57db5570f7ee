//! The team's secrets and the challenges solved from them.

use vstd::prelude::*;

use crate::messages::{ActionError, Challenge, ServerEvent};

verus! {

/// Sum of the values of secret entries.
pub open spec fn total(s: Seq<(Seq<char>, u64)>) -> int
    decreases s.len(),
{
    if s.len() == 0 {
        0
    } else {
        total(s.drop_last()) + s.last().1
    }
}

/// No two entries have the same name.
pub open spec fn names_unique(s: Seq<(Seq<char>, u64)>) -> bool {
    forall|i: int, j: int| 0 <= i < s.len() && 0 <= j < s.len() && i != j ==> s[i].0 != s[j].0
}

/// Entry `i` is the first one named `name`.
pub open spec fn first_named(s: Seq<(Seq<char>, u64)>, name: Seq<char>, i: int) -> bool {
    0 <= i < s.len() && s[i].0 == name && forall|k: int| 0 <= k < i ==> (#[trigger] s[k]).0 != name
}

/// The entries after storing `value` as the secret of `name`: the first
/// entry with that name gets the value, or a new entry comes last.
pub open spec fn with_secret(s: Seq<(Seq<char>, u64)>, name: Seq<char>, value: u64) -> Seq<(Seq<char>, u64)> {
    if exists|i: int| first_named(s, name, i) {
        s.update(choose|i: int| first_named(s, name, i), (name, value))
    } else {
        s.push((name, value))
    }
}

/// Each player's last secret, by player name.
// A vector of entries with distinct names stands in for a `HashMap` keyed by
// `String`: vstd gives `HashMap` operations their meaning only for key types
// it knows to hash and compare faithfully (integers, `bool`, boxes of them),
// and granting that to `String` would take an unproved assumption, so no
// contract about the stored secrets could be proved through such a map.
pub struct SharedSecrets {
    entries: Vec<(String, u64)>,
}

impl SharedSecrets {
    /// The entries, in the order their names were first stored.
    pub closed spec fn contents(&self) -> Seq<(Seq<char>, u64)> {
        Seq::new(self.entries@.len(), |i: int| (self.entries@[i].0@, self.entries@[i].1))
    }

    /// No secrets yet.
    pub fn new() -> (r: SharedSecrets)
        ensures
            r.contents() == Seq::<(Seq<char>, u64)>::empty(),
            names_unique(r.contents()),
    {
        let r = SharedSecrets { entries: Vec::new() };
        assert(r.contents() =~= Seq::<(Seq<char>, u64)>::empty());
        r
    }

    /// Number of players with a stored secret.
    pub fn len(&self) -> (r: usize)
        ensures
            r == self.contents().len(),
    {
        self.entries.len()
    }

    /// Stores `value` as the secret of `name`, replacing an earlier one.
    pub fn insert(&mut self, name: String, value: u64)
        ensures
            final(self).contents() == with_secret(old(self).contents(), name@, value),
            names_unique(old(self).contents()) ==> names_unique(final(self).contents()),
    {
        let ghost before = self.contents();
        let ghost key = name@;
        let mut i: usize = 0;
        while i < self.entries.len()
            invariant
                before == self.contents(),
                before == old(self).contents(),
                key == name@,
                i <= before.len(),
                forall|k: int| 0 <= k < i ==> (#[trigger] before[k]).0 != key,
            decreases self.entries@.len() - i,
        {
            if self.entries[i].0 == name {
                let ghost at = i as int;
                assert(first_named(before, key, at));
                assert forall|j: int| first_named(before, key, j) implies j == at by {
                    if j < at {
                    } else if j > at {
                        assert(before[at].0 == key);
                    }
                }
                self.entries.set(i, (name, value));
                assert(self.contents() =~= before.update(at, (key, value)));
                return;
            }
            i += 1;
        }
        assert(!exists|j: int| first_named(before, key, j)) by {
            if exists|j: int| first_named(before, key, j) {
                let j = choose|j: int| first_named(before, key, j);
                assert(before[j].0 == key);
            }
        }
        self.entries.push((name, value));
        assert(self.contents() =~= before.push((key, value)));
    }

    /// The sum of all stored secrets modulo `modulo`, summed without overflow.
    pub fn calculate_secret_sum(&self, modulo: u64) -> (r: u64)
        requires
            modulo > 0,
        ensures
            r == total(self.contents()) % (modulo as int),
    {
        let mut acc: u128 = 0;
        let mut i: usize = 0;
        while i < self.entries.len()
            invariant
                i <= self.entries@.len(),
                acc == total(self.contents().take(i as int)),
                acc <= i * 0xFFFF_FFFF_FFFF_FFFFu128,
            decreases self.entries@.len() - i,
        {
            assert(self.contents().take(i + 1).drop_last() =~= self.contents().take(i as int));
            assert((i + 1) * 0xFFFF_FFFF_FFFF_FFFFu128 <= 0xFFFF_FFFF_FFFF_FFFF_FFFF_FFFF_FFFF_FFFFu128) by (nonlinear_arith)
                requires
                    i < 0x1_0000_0000_0000_0000u128,
            ;
            acc = acc + self.entries[i].1 as u128;
            i += 1;
        }
        assert(self.contents().take(self.entries@.len() as int) =~= self.contents());
        (acc % (modulo as u128)) as u64
    }
}

/// The answer to a challenge from the team's secrets: the secret sum modulo
/// the challenge's modulus. `None` for a challenge that cannot be answered
/// so: an SOS, or a modulus of zero.
pub fn challenge_answer(challenge: &Challenge, secrets: &SharedSecrets) -> (r: Option<u64>)
    ensures
        r == match *challenge {
            Challenge::SecretSumModulo(m) => if m > 0 {
                Some((total(secrets.contents()) % (m as int)) as u64)
            } else {
                None
            },
            Challenge::SOS => None,
        },
{
    match challenge {
        Challenge::SecretSumModulo(m) => if *m > 0 {
            Some(secrets.calculate_secret_sum(*m))
        } else {
            None
        },
        Challenge::SOS => None,
    }
}

/// What to do after the server answered a challenge solution.
#[derive(Debug, Clone, Copy, PartialEq, Eq, Structural)]
pub enum SolveOutcome {
    /// Secrets were still missing: compute the answer again and resend it.
    Retry,
    /// Stop trying for now and leave the challenge pending.
    GiveUp,
    /// The challenge is over: clear it.
    Clear,
}

/// The server asks for the challenge to be solved first.
pub open spec fn asks_to_solve_first(e: ServerEvent) -> bool {
    e == ServerEvent::ActionError(ActionError::SolveChallengeFirst)
}

/// Decides what follows the server's `response` to a solution, after
/// `attempts` tries: another try while the server asks for the challenge
/// first and fewer than `max_attempts` were made, a pause when the tries
/// are used up, and the end of the challenge on any other response.
pub fn after_solve_attempt(response: &ServerEvent, attempts: u32, max_attempts: u32) -> (r:
    SolveOutcome)
    ensures
        r == if asks_to_solve_first(*response) {
            if attempts < max_attempts {
                SolveOutcome::Retry
            } else {
                SolveOutcome::GiveUp
            }
        } else {
            SolveOutcome::Clear
        },
{
    match response {
        ServerEvent::ActionError(ActionError::SolveChallengeFirst) => {
            if attempts < max_attempts {
                SolveOutcome::Retry
            } else {
                SolveOutcome::GiveUp
            }
        },
        _ => SolveOutcome::Clear,
    }
}

} // verus!
