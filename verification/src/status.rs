//! The lifecycle status of a project: a closed tagged-variant type with an
//! explicit, total string conversion in both directions. Unrecognized input
//! is a validation error, never a silent default.

use vstd::prelude::*;

use crate::StoreError;

verus! {

#[derive(Clone, Copy, Debug, PartialEq, Eq, Structural)]
pub enum ProjectStatus {
    Active,
    Paused,
    Completed,
    Archived,
}

/// One character of caller input matches one character of a canonical
/// (lowercase ASCII) status word: either exactly, or as its ASCII uppercase.
pub open spec fn char_matches(a: char, b: char) -> bool {
    a == b || ('a' <= b && b <= 'z' && a as int + 32 == b as int)
}

/// Caller input `s` spells the canonical word `w` up to ASCII case.
pub open spec fn spells(s: Seq<char>, w: Seq<char>) -> bool {
    s.len() == w.len() && forall|i: int| 0 <= i < s.len() ==> char_matches(s[i], w[i])
}

/// The total parsing map: which status, if any, a string denotes.
pub open spec fn spec_status_of(s: Seq<char>) -> Option<ProjectStatus> {
    if spells(s, "active"@) {
        Some(ProjectStatus::Active)
    } else if spells(s, "paused"@) {
        Some(ProjectStatus::Paused)
    } else if spells(s, "completed"@) {
        Some(ProjectStatus::Completed)
    } else if spells(s, "archived"@) {
        Some(ProjectStatus::Archived)
    } else {
        None
    }
}

/// The canonical lowercase word for each status.
pub open spec fn spec_status_str(st: ProjectStatus) -> Seq<char> {
    match st {
        ProjectStatus::Active => "active"@,
        ProjectStatus::Paused => "paused"@,
        ProjectStatus::Completed => "completed"@,
        ProjectStatus::Archived => "archived"@,
    }
}

/// `s` spells `w` whenever the two agree exactly: matching a character with
/// itself always succeeds.
pub proof fn lemma_spells_reflexive(s: Seq<char>)
    ensures
        spells(s, s),
{
}

/// Round trip: the canonical word of every status parses back to that status.
pub proof fn lemma_status_round_trip(st: ProjectStatus)
    ensures
        spec_status_of(spec_status_str(st)) == Some(st),
{
    reveal_strlit("active");
    reveal_strlit("paused");
    reveal_strlit("completed");
    reveal_strlit("archived");
    lemma_spells_reflexive(spec_status_str(st));
    match st {
        ProjectStatus::Active => {},
        ProjectStatus::Paused => {
            assert(!spells("paused"@, "active"@)) by {
                assert(!char_matches("paused"@[0], "active"@[0]));
            }
        },
        ProjectStatus::Completed => {},
        ProjectStatus::Archived => {
            assert(!spells("archived"@, "active"@));
            assert(!spells("archived"@, "completed"@));
        },
    }
}

/// The canonical words are pairwise distinct: the conversion to strings is
/// injective.
pub proof fn lemma_status_str_injective(a: ProjectStatus, b: ProjectStatus)
    requires
        a != b,
    ensures
        spec_status_str(a) != spec_status_str(b),
{
    reveal_strlit("active");
    reveal_strlit("paused");
    reveal_strlit("completed");
    reveal_strlit("archived");
    assert("active"@ != "paused"@) by {
        assert("active"@[0] != "paused"@[0]);
    }
    assert("active"@ != "archived"@) by {
        assert("active"@[1] != "archived"@[1]);
    }
    assert("paused"@ != "archived"@) by {
        assert("paused"@.len() != "archived"@.len());
    }
    assert("active"@ != "completed"@) by {
        assert("active"@.len() != "completed"@.len());
    }
    assert("paused"@ != "completed"@) by {
        assert("paused"@.len() != "completed"@.len());
    }
    assert("completed"@ != "archived"@) by {
        assert("completed"@.len() != "archived"@.len());
    }
}

/// True when `s` spells the canonical lowercase ASCII word `w` up to case.
fn matches_word(s: &str, w: &str) -> (r: bool)
    ensures
        r == spells(s@, w@),
{
    let n = s.unicode_len();
    if n != w.unicode_len() {
        return false;
    }
    let mut i: usize = 0;
    while i < n
        invariant
            i <= n,
            n == s@.len(),
            n == w@.len(),
            forall|j: int| 0 <= j < i ==> char_matches(s@[j], w@[j]),
        decreases n - i,
    {
        let a = s.get_char(i);
        let b = w.get_char(i);
        let hit = a == b || ('a' <= b && b <= 'z' && (a as u32) + 32 == (b as u32));
        if !hit {
            assert(!char_matches(s@[i as int], w@[i as int]));
            return false;
        }
        i = i + 1;
    }
    true
}

impl ProjectStatus {
    /// Parses a status word, ignoring ASCII case; anything else is a
    /// validation error.
    pub fn from_str(s: &str) -> (r: Result<ProjectStatus, StoreError>)
        ensures
            r == match spec_status_of(s@) {
                Some(st) => Result::<ProjectStatus, StoreError>::Ok(st),
                None => Result::<ProjectStatus, StoreError>::Err(StoreError::Validation),
            },
    {
        if matches_word(s, "active") {
            Ok(ProjectStatus::Active)
        } else if matches_word(s, "paused") {
            Ok(ProjectStatus::Paused)
        } else if matches_word(s, "completed") {
            Ok(ProjectStatus::Completed)
        } else if matches_word(s, "archived") {
            Ok(ProjectStatus::Archived)
        } else {
            Err(StoreError::Validation)
        }
    }

    /// The canonical lowercase word, as persisted and displayed.
    pub fn as_str(&self) -> (r: &'static str)
        ensures
            r@ == spec_status_str(*self),
    {
        match self {
            ProjectStatus::Active => "active",
            ProjectStatus::Paused => "paused",
            ProjectStatus::Completed => "completed",
            ProjectStatus::Archived => "archived",
        }
    }
}

} // verus!
