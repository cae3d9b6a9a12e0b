//! The registry of users, keyed by user id.

use crate::session::registry_step;
use crate::session::Action;
use crate::session::ActionView;
use crate::user::User;
use crate::user::UserView;
use vstd::prelude::*;
use vstd::string::StringExecFns;

verus! {

/// The entries of a registry in the order in which their keys first came,
/// each as its key and its user.
pub type Listing = Seq<(Seq<char>, UserView)>;

/// No key occurs twice in `listing`.
pub open spec fn distinct_keys(listing: Listing) -> bool {
    forall|i: int, j: int|
        0 <= i < j < listing.len() ==> (#[trigger] listing[i]).0 != (#[trigger] listing[j]).0
}

/// Whether `listing` has an entry under `key`.
pub open spec fn has_key(listing: Listing, key: Seq<char>) -> bool {
    exists|i: int| 0 <= i < listing.len() && (#[trigger] listing[i]).0 == key
}

/// The position of the entry under `key`.
pub open spec fn position_of(listing: Listing, key: Seq<char>) -> int {
    choose|i: int| 0 <= i < listing.len() && (#[trigger] listing[i]).0 == key
}

/// The mapping that a listing stands for.
pub open spec fn mapping_of(listing: Listing) -> Map<Seq<char>, UserView> {
    Map::new(
        |key: Seq<char>| has_key(listing, key),
        |key: Seq<char>| listing[position_of(listing, key)].1,
    )
}

/// `listing` with `user` put under `key`: in the place of the entry that
/// had this key, or at the end where there was none.
pub open spec fn upsert(listing: Listing, key: Seq<char>, user: UserView) -> Listing {
    if has_key(listing, key) {
        listing.update(position_of(listing, key), (key, user))
    } else {
        listing.push((key, user))
    }
}

/// In a listing without repeated keys, the entry at `at` is the one that
/// the mapping holds under its key.
pub proof fn lemma_mapping_at(listing: Listing, at: int)
    requires
        distinct_keys(listing),
        0 <= at < listing.len(),
    ensures
        has_key(listing, listing[at].0),
        position_of(listing, listing[at].0) == at,
        mapping_of(listing).contains_key(listing[at].0),
        mapping_of(listing)[listing[at].0] == listing[at].1,
{
    let key = listing[at].0;
    assert(has_key(listing, key));
    let found = position_of(listing, key);
    assert(found == at) by {
        if found < at {
            assert(listing[found].0 != listing[at].0);
        } else if at < found {
            assert(listing[at].0 != listing[found].0);
        }
    }
}

/// Putting a user under a key keeps keys apart, and on the mapping it is
/// `Map::insert`.
pub proof fn lemma_upsert(listing: Listing, key: Seq<char>, user: UserView)
    requires
        distinct_keys(listing),
    ensures
        distinct_keys(upsert(listing, key, user)),
        mapping_of(upsert(listing, key, user)) == mapping_of(listing).insert(key, user),
{
    let after = upsert(listing, key, user);
    let at = if has_key(listing, key) {
        position_of(listing, key)
    } else {
        listing.len() as int
    };
    assert(0 <= at < after.len() && after[at] == (key, user));
    assert(forall|i: int| 0 <= i < listing.len() && i != at ==> after[i] == listing[i]);
    assert(forall|i: int| 0 <= i < listing.len() ==> (#[trigger] after[i]).0 == listing[i].0);
    assert(distinct_keys(after)) by {
        assert forall|i: int, j: int| 0 <= i < j < after.len() implies (#[trigger] after[i]).0 != (
        #[trigger] after[j]).0 by {
            if j < listing.len() {
                assert(listing[i].0 != listing[j].0);
            } else {
                assert(after[j].0 == key);
                assert(!has_key(listing, key));
                assert(listing[i].0 != key);
            }
        }
    }
    let before_map = mapping_of(listing).insert(key, user);
    let after_map = mapping_of(after);
    assert forall|k: Seq<char>| before_map.contains_key(k) <==> after_map.contains_key(k) by {
        if k == key {
            assert(after[at].0 == k);
        } else if has_key(listing, k) {
            let i = position_of(listing, k);
            assert(after[i].0 == k);
        } else if has_key(after, k) {
            let i = position_of(after, k);
            assert(i != at);
            assert(listing[i].0 == k);
        }
    }
    assert forall|k: Seq<char>| before_map.contains_key(k) implies before_map[k] == after_map[k] by {
        if k == key {
            lemma_mapping_at(after, at);
        } else {
            let i = position_of(listing, k);
            lemma_mapping_at(listing, i);
            assert(after[i] == listing[i]);
            lemma_mapping_at(after, i);
        }
    }
    assert(after_map =~= before_map);
}

/// A listing without repeated keys stands for a finite mapping with as many
/// entries as the listing has.
pub proof fn lemma_mapping_len(listing: Listing)
    requires
        distinct_keys(listing),
    ensures
        mapping_of(listing).dom().finite(),
        mapping_of(listing).len() == listing.len(),
    decreases listing.len(),
{
    if listing.len() == 0 {
        assert(mapping_of(listing).dom() =~= Set::<Seq<char>>::empty());
    } else {
        let front = listing.drop_last();
        let last = listing.last();
        assert(forall|i: int| 0 <= i < front.len() ==> front[i] == listing[i]);
        assert(distinct_keys(front));
        assert(!has_key(front, last.0)) by {
            if has_key(front, last.0) {
                let i = position_of(front, last.0);
                assert(listing[i].0 != listing[listing.len() - 1].0);
            }
        }
        lemma_mapping_len(front);
        lemma_upsert(front, last.0, last.1);
        assert(upsert(front, last.0, last.1) =~= listing);
        assert(mapping_of(listing).dom() =~= mapping_of(front).dom().insert(last.0));
    }
}

/// How one entry is written in a snapshot.
pub open spec fn entry_text(entry: (Seq<char>, UserView)) -> Seq<char> {
    "\""@ + entry.0 + "\": User { id: \""@ + entry.1.id + "\", name: \""@ + entry.1.name
        + "\", token: \""@ + entry.1.token + "\" }"@
}

/// The entries of a snapshot: each entry as [`entry_text`] writes it, with
/// a comma and a blank between two of them.
pub open spec fn entries_text(listing: Listing) -> Seq<char>
    decreases listing.len(),
{
    if listing.len() == 0 {
        Seq::empty()
    } else if listing.len() == 1 {
        entry_text(listing[0])
    } else {
        entries_text(listing.drop_last()) + ", "@ + entry_text(listing.last())
    }
}

/// A snapshot: the entries in the order of the listing, in braces.
pub open spec fn snapshot_text(listing: Listing) -> Seq<char> {
    "{"@ + entries_text(listing) + "}"@
}

/// One entry of the registry.
#[derive(Debug, Clone)]
struct Entry {
    key: String,
    user: User,
}

/// The users that are registered, each under its id. At most one user
/// stands under an id, and putting a user in is the only change there is.
#[derive(Debug)]
pub struct Registry {
    entries: Vec<Entry>,
}

impl View for Registry {
    type V = Map<Seq<char>, UserView>;

    open spec fn view(&self) -> Map<Seq<char>, UserView> {
        mapping_of(self.listing())
    }
}

impl Registry {
    /// The entries in the order in which their keys first came.
    pub closed spec fn listing(&self) -> Listing {
        Seq::new(self.entries@.len(), |i: int| (self.entries@[i].key@, self.entries@[i].user@))
    }

    /// What holds of every registry: no key stands twice in its listing.
    #[verifier::type_invariant]
    spec fn well_formed(&self) -> bool {
        distinct_keys(self.listing())
    }

    /// An empty registry.
    pub fn new() -> (registry: Registry)
        ensures
            registry.listing() == Seq::<(Seq<char>, UserView)>::empty(),
            registry@ == Map::<Seq<char>, UserView>::empty(),
    {
        let registry = Registry { entries: Vec::new() };
        proof {
            assert(registry.listing() =~= Seq::<(Seq<char>, UserView)>::empty());
            assert(registry@ =~= Map::<Seq<char>, UserView>::empty());
        }
        registry
    }

    /// The position of the entry under `id`.
    fn position(&self, id: &str) -> (at: Option<usize>)
        ensures
            match at {
                Some(i) => i < self.entries@.len() && self.listing()[i as int].0 == id@,
                None => !has_key(self.listing(), id@),
            },
    {
        let wanted = String::from_str(id);
        let mut i: usize = 0;
        while i < self.entries.len()
            invariant
                i <= self.entries@.len(),
                wanted@ == id@,
                forall|k: int| 0 <= k < i ==> (#[trigger] self.listing()[k]).0 != id@,
            decreases self.entries@.len() - i,
        {
            if self.entries[i].key == wanted {
                return Some(i);
            }
            i += 1;
        }
        None
    }

    /// How many users are registered.
    pub fn len(&self) -> (n: usize)
        ensures
            self@.dom().finite(),
            n == self@.len(),
            n == self.listing().len(),
            distinct_keys(self.listing()),
    {
        proof {
            use_type_invariant(self);
            lemma_mapping_len(self.listing());
        }
        self.entries.len()
    }

    /// The user under `id`, if there is one.
    pub fn get(&self, id: &str) -> (found: Option<&User>)
        ensures
            match found {
                Some(user) => self@.contains_key(id@) && self@[id@] == user@,
                None => !self@.contains_key(id@),
            },
    {
        match self.position(id) {
            Some(i) => {
                proof {
                    use_type_invariant(self);
                    lemma_mapping_at(self.listing(), i as int);
                }
                Some(&self.entries[i].user)
            },
            None => None,
        }
    }

    /// Whether a user stands under `id`.
    pub fn contains(&self, id: &str) -> (known: bool)
        ensures
            known == self@.contains_key(id@),
    {
        self.position(id).is_some()
    }

    /// The registry written out for a diagnostic log: every entry with its
    /// key and the three fields of its user, in the order of the listing.
    pub fn snapshot_for_log(&self) -> (text: String)
        ensures
            text@ == snapshot_text(self.listing()),
    {
        let mut text = String::from_str("{");
        let ghost listing = self.listing();
        let mut i: usize = 0;
        while i < self.entries.len()
            invariant
                i <= self.entries@.len(),
                listing == self.listing(),
                text@ == "{"@ + entries_text(listing.take(i as int)),
            decreases self.entries@.len() - i,
        {
            let entry = &self.entries[i];
            if i > 0 {
                text.append(", ");
            }
            text.append("\"");
            text.append(entry.key.as_str());
            text.append("\": User { id: \"");
            text.append(entry.user.id().as_str());
            text.append("\", name: \"");
            text.append(entry.user.name().as_str());
            text.append("\", token: \"");
            text.append(entry.user.token().as_str());
            text.append("\" }");
            proof {
                let next = listing.take(i + 1);
                assert(next.drop_last() =~= listing.take(i as int));
                assert(next.last() == listing[i as int]);
                assert(text@ =~= "{"@ + entries_text(next));
            }
            i += 1;
        }
        proof {
            assert(listing.take(i as int) =~= listing);
        }
        text.append("}");
        text
    }

    /// Puts `user` under `id`. A user that stood under `id` is replaced
    /// without notice.
    pub fn insert(&mut self, id: String, user: User)
        ensures
            final(self)@ == old(self)@.insert(id@, user@),
            final(self).listing() == upsert(old(self).listing(), id@, user@),
            distinct_keys(final(self).listing()),
    {
        proof {
            use_type_invariant(&*self);
            lemma_upsert(self.listing(), id@, user@);
        }
        let ghost before = self.listing();
        let at = self.position(id.as_str());
        let mut entries: Vec<Entry> = Vec::new();
        core::mem::swap(&mut self.entries, &mut entries);
        match at {
            Some(i) => {
                proof {
                    lemma_mapping_at(before, i as int);
                }
                entries.set(i, Entry { key: id, user });
            },
            None => {
                entries.push(Entry { key: id, user });
            },
        }
        proof {
            assert(Seq::new(
                entries@.len(),
                |i: int| (entries@[i].key@, entries@[i].user@),
            ) =~= upsert(before, id@, user@));
        }
        core::mem::swap(&mut self.entries, &mut entries);
    }

    /// Carries out what `action` asks of the registry: a `Register` puts its
    /// user under its id. The other actions ask nothing of the registry.
    pub fn apply(&mut self, action: Action)
        ensures
            final(self)@ == registry_step(old(self)@, action@),
            final(self).listing() == match action@ {
                ActionView::Register { id, user } => upsert(old(self).listing(), id, user),
                _ => old(self).listing(),
            },
    {
        match action {
            Action::Register { id, user } => {
                self.insert(id, user);
            },
            _ => {},
        }
    }
}

} // verus!
