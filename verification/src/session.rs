//! Server-issued session data: the authenticated user, the account's
//! characters, and the optional active event.

use vstd::prelude::*;

verus! {

/// The authenticated user's sub-record: an access-rights bitmask and the
/// session token quoted back to the server on character operations.
pub struct User {
    pub rights: u32,
    pub token: String,
}

/// One playable character belonging to the account.
pub struct Character {
    pub id: u32,
    pub name: String,
    pub is_new: bool,
    pub is_female: bool,
    pub weapon: u32,
    pub hr: u32,
    pub gr: u32,
    pub last_login: i64,
}

/// The active server event, present only while one is running: its window,
/// ticket counters, and the raw stall codes offered.
pub struct MezFes {
    pub id: u32,
    pub start: u32,
    pub end: u32,
    pub solo_tickets: u32,
    pub group_tickets: u32,
    pub stalls: Vec<u32>,
}

/// The whole session snapshot a successful login or registration returns.
/// It is replaced wholesale, never merged field by field.
pub struct AuthData {
    pub current_ts: u32,
    pub expiry_ts: u32,
    pub entrance_count: u32,
    pub notifications: Vec<String>,
    pub user: User,
    pub characters: Vec<Character>,
    pub mez_fes: Option<MezFes>,
}

/// No two characters in the sequence share an id.
pub open spec fn ids_unique(s: Seq<Character>) -> bool {
    forall|i: int, j: int| 0 <= i < j < s.len() ==> s[i].id != s[j].id
}

/// Some character in the sequence has this id.
pub open spec fn has_id(s: Seq<Character>, id: u32) -> bool {
    exists|i: int| 0 <= i < s.len() && s[i].id == id
}

/// The two snapshots agree on everything except possibly the character
/// sequence.
pub open spec fn same_but_characters(a: AuthData, b: AuthData) -> bool {
    &&& a.current_ts == b.current_ts
    &&& a.expiry_ts == b.expiry_ts
    &&& a.entrance_count == b.entrance_count
    &&& a.notifications == b.notifications
    &&& a.user == b.user
    &&& a.mez_fes == b.mez_fes
}

/// Every element of the filtered sequence is an element of the original.
proof fn lemma_filter_is_subset(s: Seq<Character>, pred: spec_fn(Character) -> bool)
    ensures
        forall|i: int|
            0 <= i < s.filter(pred).len() ==> s.contains(#[trigger] s.filter(pred)[i]),
    decreases s.len(),
{
    reveal(Seq::filter);
    if s.len() > 0 {
        let d = s.drop_last();
        lemma_filter_is_subset(d, pred);
        assert forall|i: int|
            0 <= i < s.filter(pred).len() implies s.contains(#[trigger] s.filter(pred)[i]) by {
            if i < d.filter(pred).len() {
                assert(s.filter(pred)[i] == d.filter(pred)[i]);
                let k = choose|k: int| 0 <= k < d.len() && d[k] == d.filter(pred)[i];
                assert(s[k] == d.filter(pred)[i]);
            } else {
                assert(s.filter(pred)[i] == s.last());
                assert(s[s.len() - 1] == s.last());
            }
        }
    }
}

/// Law: appending a character whose id is not yet in the sequence keeps the
/// ids free of duplicates. (Create operations receive server-assigned fresh
/// ids; appending an id already present would break uniqueness, which is
/// why freshness is assumed here.)
pub proof fn lemma_add_preserves_unique(s: Seq<Character>, c: Character)
    requires
        ids_unique(s),
        !has_id(s, c.id),
    ensures
        ids_unique(s.push(c)),
{
    assert forall|i: int, j: int|
        0 <= i < j < s.push(c).len() implies s.push(c)[i].id != s.push(c)[j].id by {
        if j < s.len() {
            assert(s.push(c)[i] == s[i] && s.push(c)[j] == s[j]);
        } else {
            assert(s.push(c)[j] == c);
            assert(s.push(c)[i] == s[i]);
        }
    }
}

/// Law: removing the characters with one id keeps the ids free of
/// duplicates, whatever the id.
pub proof fn lemma_remove_preserves_unique(s: Seq<Character>, id: u32)
    requires
        ids_unique(s),
    ensures
        ids_unique(s.filter(|c: Character| c.id != id)),
    decreases s.len(),
{
    reveal(Seq::filter);
    let pred = |c: Character| c.id != id;
    if s.len() > 0 {
        let d = s.drop_last();
        assert(ids_unique(d)) by {
            assert(forall|i: int, j: int|
                0 <= i < j < d.len() ==> d[i] == s[i] && d[j] == s[j]);
        }
        lemma_remove_preserves_unique(d, id);
        if pred(s.last()) {
            lemma_filter_is_subset(d, pred);
            assert forall|i: int, j: int|
                0 <= i < j < s.filter(pred).len() implies s.filter(pred)[i].id != s.filter(
                pred,
            )[j].id by {
                if j < d.filter(pred).len() {
                    assert(s.filter(pred)[i] == d.filter(pred)[i]);
                    assert(s.filter(pred)[j] == d.filter(pred)[j]);
                } else {
                    assert(s.filter(pred)[j] == s.last());
                    assert(s.filter(pred)[i] == d.filter(pred)[i]);
                    assert(d.contains(d.filter(pred)[i]));
                    let k = choose|k: int| 0 <= k < d.len() && d[k] == d.filter(pred)[i];
                    assert(s[k] == d[k] && s.last() == s[s.len() - 1]);
                }
            }
        }
    }
}

/// Law: removing an id that no character has leaves the sequence unchanged.
pub proof fn lemma_remove_absent(s: Seq<Character>, id: u32)
    requires
        !has_id(s, id),
    ensures
        s.filter(|c: Character| c.id != id) == s,
    decreases s.len(),
{
    reveal(Seq::filter);
    let pred = |c: Character| c.id != id;
    if s.len() > 0 {
        let d = s.drop_last();
        assert(!has_id(d, id)) by {
            assert(forall|i: int| 0 <= i < d.len() ==> d[i] == s[i]);
        }
        lemma_remove_absent(d, id);
        assert(s.last() == s[s.len() - 1]);
        assert(pred(s.last()));
        assert(s.filter(pred) == d.push(s.last()));
        assert(d.push(s.last()) =~= s);
    }
}

/// Law: after removing an id, no character in the result has it.
pub proof fn lemma_removed_id_gone(s: Seq<Character>, id: u32)
    ensures
        !has_id(s.filter(|c: Character| c.id != id), id),
{
    let pred = |c: Character| c.id != id;
    let out = s.filter(pred);
    assert forall|i: int| 0 <= i < out.len() implies out[i].id != id by {
        s.lemma_filter_pred(pred, i);
    }
}

impl Character {
    /// A field-for-field copy of the character.
    pub fn duplicate(&self) -> (r: Character)
        ensures
            r == *self,
    {
        Character {
            id: self.id,
            name: self.name.clone(),
            is_new: self.is_new,
            is_female: self.is_female,
            weapon: self.weapon,
            hr: self.hr,
            gr: self.gr,
            last_login: self.last_login,
        }
    }
}

impl AuthData {
    /// The empty session a launcher starts with, before any login.
    pub fn empty() -> (r: AuthData)
        ensures
            r.current_ts == 0,
            r.expiry_ts == 0,
            r.entrance_count == 0,
            r.notifications@ == Seq::<String>::empty(),
            r.user.rights == 0,
            r.user.token@ == Seq::<char>::empty(),
            r.characters@ == Seq::<Character>::empty(),
            r.mez_fes is None,
    {
        AuthData {
            current_ts: 0,
            expiry_ts: 0,
            entrance_count: 0,
            notifications: Vec::new(),
            user: User { rights: 0, token: String::new() },
            characters: Vec::new(),
            mez_fes: None,
        }
    }

    /// Appends a server-created character to the sequence.
    pub fn add_character(&mut self, c: Character)
        ensures
            final(self).characters@ == old(self).characters@.push(c),
            final(self).current_ts == old(self).current_ts,
            final(self).expiry_ts == old(self).expiry_ts,
            final(self).entrance_count == old(self).entrance_count,
            final(self).notifications == old(self).notifications,
            final(self).user == old(self).user,
            final(self).mez_fes == old(self).mez_fes,
    {
        self.characters.push(c);
    }

    /// Removes every character whose id matches, keeping the relative order
    /// of the rest; with no match the sequence is unchanged.
    pub fn remove_character_by_id(&mut self, id: u32)
        ensures
            final(self).characters@ == old(self).characters@.filter(
                |c: Character| c.id != id,
            ),
            final(self).current_ts == old(self).current_ts,
            final(self).expiry_ts == old(self).expiry_ts,
            final(self).entrance_count == old(self).entrance_count,
            final(self).notifications == old(self).notifications,
            final(self).user == old(self).user,
            final(self).mez_fes == old(self).mez_fes,
    {
        let pred = |c: Character| c.id != id;
        let ghost full: Seq<Character> = self.characters@;
        let mut kept: Vec<Character> = Vec::new();
        let n = self.characters.len();
        let mut i: usize = 0;
        proof {
            reveal(Seq::filter);
            assert(full.take(0).filter(|c: Character| c.id != id) =~= Seq::<
                Character,
            >::empty());
        }
        while i < n
            invariant
                i <= n,
                n == self.characters.len(),
                self.characters@ == full,
                kept@ == full.take(i as int).filter(|c: Character| c.id != id),
            decreases n - i,
        {
            proof {
                reveal(Seq::filter);
                assert(full.take(i + 1).drop_last() =~= full.take(i as int));
                assert(full.take(i + 1).last() == full[i as int]);
            }
            if self.characters[i].id != id {
                kept.push(self.characters[i].duplicate());
            }
            i += 1;
        }
        proof {
            assert(full.take(n as int) =~= full);
        }
        self.characters = kept;
    }
}

} // verus!
