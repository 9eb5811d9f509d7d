//! The parts of chat identifiers that the pipeline reads: the server part
//! of a user id (`@user:server`), and the shape of a room id
//! (`!localpart:server`).

use vstd::prelude::*;
use vstd::string::*;

verus! {

/// The length of the leading run of characters before the first colon.
pub open spec fn colon_len(s: Seq<char>) -> int
    decreases s.len(),
{
    if s.len() == 0 || s[0] == ':' {
        0
    } else {
        1 + colon_len(s.drop_first())
    }
}

/// Whether a user id carries a server part, that is, a colon.
pub open spec fn mxid_has_server(s: Seq<char>) -> bool {
    colon_len(s) < s.len()
}

/// Everything after the first colon of a user id: the server's domain.
pub open spec fn spec_server_of(s: Seq<char>) -> Seq<char> {
    s.skip(colon_len(s) + 1)
}

proof fn lemma_colon_len(s: Seq<char>, i: int)
    requires
        0 <= i <= s.len(),
        forall|j: int| 0 <= j < i ==> s[j] != ':',
        i == s.len() || s[i] == ':',
    ensures
        colon_len(s) == i,
    decreases i,
{
    if i == 0 {
    } else {
        assert(s[0] != ':');
        assert forall|j: int| 0 <= j < i - 1 implies s.drop_first()[j] != ':' by {
            assert(s.drop_first()[j] == s[j + 1]);
        }
        if i < s.len() {
            assert(s.drop_first()[i - 1] == s[i]);
        }
        lemma_colon_len(s.drop_first(), i - 1);
    }
}

/// The server part of a user id, when it has one.
pub fn server_of_mxid(s: &str) -> (r: Option<String>)
    ensures
        mxid_has_server(s@) ==> (r matches Some(t) && t@ == spec_server_of(s@)),
        !mxid_has_server(s@) ==> r is None,
{
    let n = s.unicode_len();
    let mut i: usize = 0;
    while i < n && s.get_char(i) != ':'
        invariant
            0 <= i <= n,
            n == s@.len(),
            forall|j: int| 0 <= j < i ==> s@[j] != ':',
        decreases n - i,
    {
        i = i + 1;
    }
    proof {
        lemma_colon_len(s@, i as int);
    }
    if i == n {
        None
    } else {
        let t = s.substring_char(i + 1, n).to_owned();
        proof {
            assert(t@ =~= spec_server_of(s@));
        }
        Some(t)
    }
}

/// The shape a room id must have before the bot addresses it: the `!`
/// sigil, then a colon separating localpart and server.
pub open spec fn spec_room_id_valid(s: Seq<char>) -> bool {
    s.len() > 0 && s[0] == '!' && (exists|j: int| 1 <= j < s.len() && s[j] == ':')
}

/// Checks the shape of a room id.
pub fn room_id_valid(s: &str) -> (r: bool)
    ensures
        r == spec_room_id_valid(s@),
{
    let n = s.unicode_len();
    if n == 0 {
        return false;
    }
    if s.get_char(0) != '!' {
        return false;
    }
    let mut i: usize = 1;
    while i < n
        invariant
            1 <= i <= n,
            n == s@.len(),
            s@.len() > 0,
            s@[0] == '!',
            forall|j: int| 1 <= j < i ==> s@[j] != ':',
        decreases n - i,
    {
        if s.get_char(i) == ':' {
            proof {
                assert(spec_room_id_valid(s@)) by {
                    assert(1 <= i < s@.len() && s@[i as int] == ':');
                }
            }
            return true;
        }
        i = i + 1;
    }
    false
}

} // verus!
