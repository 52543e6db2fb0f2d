//! The asset bundle: a fixed mapping from relative paths to file contents,
//! built once and only read afterwards.

use vstd::prelude::*;
use vstd::string::*;

verus! {

/// One bundled file: its path relative to the root of the asset tree, with
/// forward slashes, and its bytes.
#[derive(Clone, Debug, PartialEq, Eq)]
pub struct AssetEntry {
    pub key: String,
    pub content: Vec<u8>,
}

impl View for AssetEntry {
    type V = (Seq<char>, Seq<u8>);

    open spec fn view(&self) -> (Seq<char>, Seq<u8>) {
        (self.key@, self.content@)
    }
}

/// A list of entries as pairs of key and content.
pub open spec fn entries_view(entries: Seq<AssetEntry>) -> Seq<(Seq<char>, Seq<u8>)> {
    entries.map_values(|e: AssetEntry| e@)
}

/// No key occurs twice in `entries`.
pub open spec fn keys_unique(entries: Seq<(Seq<char>, Seq<u8>)>) -> bool {
    forall|i: int, j: int| 0 <= i < j < entries.len() ==> entries[i].0 != entries[j].0
}

/// Some entry of `entries` has the key `key`.
pub open spec fn has_key(entries: Seq<(Seq<char>, Seq<u8>)>, key: Seq<char>) -> bool {
    exists|i: int| 0 <= i < entries.len() && #[trigger] entries[i].0 == key
}

/// The entry at `index` repeats the key of an earlier entry, and no entry
/// before it does.
pub open spec fn first_repeat(entries: Seq<(Seq<char>, Seq<u8>)>, index: int) -> bool {
    &&& 0 <= index < entries.len()
    &&& has_key(entries.take(index), entries[index].0)
    &&& keys_unique(entries.take(index))
}

/// The mapping that a list of entries stands for: its domain is the set of
/// their keys, and each key is mapped to the content listed with it.
pub open spec fn contents(entries: Seq<(Seq<char>, Seq<u8>)>) -> Map<Seq<char>, Seq<u8>> {
    Map::new(
        |key: Seq<char>| has_key(entries, key),
        |key: Seq<char>|
            entries[choose|i: int| 0 <= i < entries.len() && #[trigger] entries[i].0 == key].1,
    )
}

/// With unique keys, each entry is found under its key.
pub proof fn lemma_contents_of_entry(entries: Seq<(Seq<char>, Seq<u8>)>, index: int)
    requires
        keys_unique(entries),
        0 <= index < entries.len(),
    ensures
        contents(entries).contains_key(entries[index].0),
        contents(entries)[entries[index].0] == entries[index].1,
{
    let key = entries[index].0;
    assert(has_key(entries, key));
    let found = choose|i: int| 0 <= i < entries.len() && #[trigger] entries[i].0 == key;
    assert(found == index);
}

/// Why a list of entries is not a bundle: the entry at `index` has the key of
/// an earlier one.
#[derive(Clone, Copy, Debug, PartialEq, Eq)]
pub struct DuplicateKey {
    pub index: usize,
}

/// The bundle. Its keys are unique, and nothing changes it once it is built.
#[derive(Debug)]
pub struct AssetBundle {
    entries: Vec<AssetEntry>,
}

impl View for AssetBundle {
    type V = Map<Seq<char>, Seq<u8>>;

    closed spec fn view(&self) -> Map<Seq<char>, Seq<u8>> {
        contents(entries_view(self.entries@))
    }
}

impl AssetBundle {
    #[verifier::type_invariant]
    spec fn keys_are_unique(&self) -> bool {
        keys_unique(entries_view(self.entries@))
    }

    /// Builds the bundle from the files of an asset tree. A list in which a
    /// key occurs twice is refused, with the place of the first repeat.
    pub fn from_entries(entries: Vec<AssetEntry>) -> (built: Result<AssetBundle, DuplicateKey>)
        ensures
            built is Ok <==> keys_unique(entries_view(entries@)),
            match built {
                Ok(bundle) => bundle@ == contents(entries_view(entries@)),
                Err(error) => first_repeat(entries_view(entries@), error.index as int),
            },
    {
        let ghost pairs = entries_view(entries@);
        let n: usize = entries.len();
        let mut j: usize = 0;
        while j < n
            invariant
                n == entries.len(),
                pairs == entries_view(entries@),
                j <= n,
                keys_unique(pairs.take(j as int)),
            decreases n - j,
        {
            let mut i: usize = 0;
            while i < j
                invariant
                    n == entries.len(),
                    pairs == entries_view(entries@),
                    i <= j < n,
                    keys_unique(pairs.take(j as int)),
                    forall|k: int| 0 <= k < i ==> pairs[k].0 != pairs[j as int].0,
                decreases j - i,
            {
                if entries[i].key == entries[j].key {
                    assert(pairs.take(j as int)[i as int].0 == pairs[j as int].0);
                    assert(has_key(pairs.take(j as int), pairs[j as int].0));
                    assert(!keys_unique(pairs));
                    return Err(DuplicateKey { index: j });
                }
                i += 1;
            }
            j += 1;
        }
        assert(pairs.take(n as int) =~= pairs);
        Ok(AssetBundle { entries })
    }

    /// Looks `key` up: an exact match, letter by letter. A key that the
    /// bundle does not hold is an ordinary outcome, `None`.
    pub fn get(&self, key: &str) -> (found: Option<&[u8]>)
        ensures
            match found {
                Some(content) => self@.contains_key(key@) && content@ == self@[key@],
                None => !self@.contains_key(key@),
            },
    {
        proof {
            use_type_invariant(self);
        }
        let ghost pairs = entries_view(self.entries@);
        let wanted: String = key.to_owned();
        let n: usize = self.entries.len();
        let mut i: usize = 0;
        while i < n
            invariant
                n == self.entries.len(),
                pairs == entries_view(self.entries@),
                keys_unique(pairs),
                wanted@ == key@,
                i <= n,
                forall|k: int| 0 <= k < i ==> pairs[k].0 != key@,
            decreases n - i,
        {
            if self.entries[i].key == wanted {
                proof {
                    lemma_contents_of_entry(pairs, i as int);
                }
                return Some(self.entries[i].content.as_slice());
            }
            i += 1;
        }
        None
    }
}

} // verus!
