//! The lookup index from playlist id to playlist display name, built from the
//! full set of playlist records and used to resolve ranked-season entries.
//! Resolution of an unknown id yields the sentinel `"Unknown"`: a display
//! concern, never an error.

use vstd::prelude::*;
use vstd::string::StringExecFns;

use crate::records::Playlist;

verus! {

/// The value paired with the first occurrence of a key in an association
/// sequence, if the key occurs at all.
pub open spec fn assoc_first<V>(s: Seq<(u64, V)>, k: u64) -> Option<V>
    decreases s.len(),
{
    if s.len() == 0 {
        None
    } else if s[0].0 == k {
        Some(s[0].1)
    } else {
        assoc_first(s.drop_first(), k)
    }
}

/// Appending a pair leaves every earlier key's binding unchanged, and binds a
/// fresh key to the appended value.
pub proof fn lemma_assoc_first_push<V>(s: Seq<(u64, V)>, k: u64, p: (u64, V))
    ensures
        assoc_first(s.push(p), k) == if assoc_first(s, k) is Some {
            assoc_first(s, k)
        } else if p.0 == k {
            Some(p.1)
        } else {
            None::<V>
        },
    decreases s.len(),
{
    if s.len() == 0 {
        assert(s.push(p)[0] == p);
        assert(s.push(p).drop_first() =~= Seq::<(u64, V)>::empty());
        assert(assoc_first(Seq::<(u64, V)>::empty(), k) is None);
        if p.0 == k {
            assert(assoc_first(s.push(p), k) == Some(p.1));
        } else {
            assert(assoc_first(s.push(p), k) == assoc_first(s.push(p).drop_first(), k));
        }
    } else {
        assert(s.push(p)[0] == s[0]);
        assert(s.push(p).drop_first() =~= s.drop_first().push(p));
        lemma_assoc_first_push(s.drop_first(), k, p);
        if s[0].0 == k {
            assert(assoc_first(s.push(p), k) == Some(s[0].1));
            assert(assoc_first(s, k) == Some(s[0].1));
        } else {
            assert(assoc_first(s.push(p), k) == assoc_first(s.drop_first().push(p), k));
            assert(assoc_first(s, k) == assoc_first(s.drop_first(), k));
        }
    }
}

/// The mapping from playlist id to playlist display name.  When the same id
/// appears once per platform, the name of the first record seen is kept
/// (platform variants of one playlist id are assumed to share a name).
pub struct NameIndex {
    pub entries: Vec<(u64, String)>,
}

/// What resolving an id against an index yields: the bound name, or the
/// `"Unknown"` sentinel when the id is not bound.
pub open spec fn resolved_name(entries: Seq<(u64, String)>, id: u64) -> Seq<char> {
    match assoc_first(entries, id) {
        Some(n) => n@,
        None => "Unknown"@,
    }
}

/// Whether some record in `records` carries playlist id `id`.
pub open spec fn has_playlist_id(records: Seq<Playlist>, id: u64) -> bool {
    exists|i: int| 0 <= i < records.len() && records[i].id == id
}

/// Whether some record in `records` carries this exact (id, name) pair.
pub open spec fn has_playlist_named(records: Seq<Playlist>, id: u64, name: Seq<char>) -> bool {
    exists|i: int| 0 <= i < records.len() && records[i].id == id && records[i].name@ == name
}

/// An id occurs in an extended record sequence exactly when it occurs in the
/// original records or is the id of the appended record.
pub(crate) proof fn lemma_has_id_push(prefix: Seq<Playlist>, r: Playlist, id: u64)
    ensures
        has_playlist_id(prefix.push(r), id) <==> (has_playlist_id(prefix, id) || r.id == id),
{
    if has_playlist_id(prefix, id) {
        let w = choose|w: int| 0 <= w < prefix.len() && #[trigger] prefix[w].id == id;
        assert(prefix.push(r)[w].id == id);
    }
    if r.id == id {
        assert(prefix.push(r)[prefix.len() as int].id == id);
    }
    if has_playlist_id(prefix.push(r), id) {
        let w = choose|w: int|
            0 <= w < prefix.push(r).len() && #[trigger] prefix.push(r)[w].id == id;
        if w < prefix.len() {
            assert(prefix[w].id == id);
        } else {
            assert(prefix.push(r)[w] == r);
        }
    }
}

/// A witness for an (id, name) pair survives appending a record, and the
/// appended record is itself a witness for its own pair.
proof fn lemma_has_named_push(prefix: Seq<Playlist>, r: Playlist, id: u64, name: Seq<char>)
    requires
        has_playlist_named(prefix, id, name) || (r.id == id && r.name@ == name),
    ensures
        has_playlist_named(prefix.push(r), id, name),
{
    if has_playlist_named(prefix, id, name) {
        let w = choose|w: int|
            0 <= w < prefix.len() && #[trigger] prefix[w].id == id && prefix[w].name@ == name;
        assert(prefix.push(r)[w].id == id && prefix.push(r)[w].name@ == name);
    } else {
        assert(prefix.push(r)[prefix.len() as int] == r);
    }
}

impl NameIndex {
    /// Builds the index over the given playlist records: every id that occurs
    /// is bound, and only to a name that actually appears with that id.
    pub fn build(records: &Vec<Playlist>) -> (ix: NameIndex)
        ensures
            forall|id: u64|
                #[trigger] assoc_first(ix.entries@, id) is Some <==> has_playlist_id(
                    records@,
                    id,
                ),
            forall|id: u64|
                (#[trigger] assoc_first(ix.entries@, id)) matches Some(n)
                    ==> has_playlist_named(records@, id, n@),
    {
        let mut entries: Vec<(u64, String)> = Vec::new();
        let n = records.len();
        let mut i: usize = 0;
        while i < n
            invariant
                i <= n,
                n == records@.len(),
                forall|id: u64|
                    #[trigger] assoc_first(entries@, id) is Some <==> has_playlist_id(
                        records@.take(i as int),
                        id,
                    ),
                forall|id: u64|
                    (#[trigger] assoc_first(entries@, id)) matches Some(nm)
                        ==> has_playlist_named(records@.take(i as int), id, nm@),
            decreases n - i,
        {
            let ghost prefix = records@.take(i as int);
            let ghost rec = records@[i as int];
            let r = &records[i];
            let bound = lookup_id(&entries, r.id);
            proof {
                assert(records@.take(i + 1 as int) =~= prefix.push(rec));
            }
            if bound.is_none() {
                let ghost before = entries@;
                entries.push((r.id, r.name.clone()));
                let ghost pushed = entries@.last();
                proof {
                    assert(entries@ == before.push(pushed));
                    assert forall|id: u64| #[trigger]
                        assoc_first(entries@, id) is Some <==> has_playlist_id(
                        records@.take(i + 1 as int),
                        id,
                    ) by {
                        lemma_assoc_first_push(before, id, pushed);
                        lemma_has_id_push(prefix, rec, id);
                    }
                    assert forall|id: u64|
                        (#[trigger] assoc_first(entries@, id)) is Some implies
                        has_playlist_named(
                        records@.take(i + 1 as int),
                        id,
                        (assoc_first(entries@, id)->Some_0)@,
                    ) by {
                        lemma_assoc_first_push(before, id, pushed);
                        let nm = (assoc_first(entries@, id)->Some_0)@;
                        lemma_has_named_push(prefix, rec, id, nm);
                    }
                }
            } else {
                proof {
                    assert(assoc_first(entries@, rec.id) is Some);
                    assert forall|id: u64| #[trigger]
                        assoc_first(entries@, id) is Some <==> has_playlist_id(
                        records@.take(i + 1 as int),
                        id,
                    ) by {
                        lemma_has_id_push(prefix, rec, id);
                    }
                    assert forall|id: u64|
                        (#[trigger] assoc_first(entries@, id)) is Some implies
                        has_playlist_named(
                        records@.take(i + 1 as int),
                        id,
                        (assoc_first(entries@, id)->Some_0)@,
                    ) by {
                        let nm = (assoc_first(entries@, id)->Some_0)@;
                        lemma_has_named_push(prefix, rec, id, nm);
                    }
                }
            }
            i = i + 1;
        }
        proof {
            assert(records@.take(n as int) =~= records@);
        }
        NameIndex { entries }
    }

    /// Resolves a playlist id to its display name, or to `"Unknown"` when the
    /// index does not bind the id.
    pub fn resolve(&self, id: u64) -> (r: String)
        ensures
            r@ == resolved_name(self.entries@, id),
    {
        let found = lookup_id(&self.entries, id);
        match found {
            Some(j) => self.entries[j].1.clone(),
            None => String::from_str("Unknown"),
        }
    }
}

/// Finds the position of the first entry bound to `id`, if any.
fn lookup_id(entries: &Vec<(u64, String)>, id: u64) -> (r: Option<usize>)
    ensures
        match r {
            Some(j) => 0 <= j < entries@.len() && entries@[j as int].0 == id && assoc_first(
                entries@,
                id,
            ) == Some(entries@[j as int].1),
            None => assoc_first(entries@, id) is None,
        },
{
    let n = entries.len();
    proof {
        assert(entries@.skip(0) =~= entries@);
    }
    let mut i: usize = 0;
    while i < n
        invariant
            i <= n,
            n == entries@.len(),
            assoc_first(entries@, id) == assoc_first(entries@.skip(i as int), id),
        decreases n - i,
    {
        proof {
            assert(entries@.skip(i as int)[0] == entries@[i as int]);
            assert(entries@.skip(i as int).drop_first() =~= entries@.skip(i + 1 as int));
        }
        if entries[i].0 == id {
            return Some(i);
        }
        i = i + 1;
    }
    proof {
        assert(entries@.skip(n as int) =~= Seq::<(u64, String)>::empty());
    }
    None
}

} // verus!
