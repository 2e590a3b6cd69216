//! Translation of user-visible strings: a read-only table built once from
//! a locale document, looked up by dotted key. An unregistered key is
//! answered with the key itself, so a missing locale entry degrades to
//! the key being shown instead of a failure.

use vstd::prelude::*;

verus! {

/// A locale document as the library reads it: a tree of nested tables
/// whose leaves are the texts to show. A leaf that was not written as a
/// text in the document carries that value's document form instead.
#[derive(Debug)]
pub enum LocaleTree {
    Leaf(String),
    Table(Vec<(String, LocaleTree)>),
}

/// The contents of a list of owned key/value strings, as character
/// sequences.
pub open spec fn pairs_view(pairs: Seq<(String, String)>) -> Seq<(Seq<char>, Seq<char>)> {
    pairs.map_values(|pair: (String, String)| (pair.0@, pair.1@))
}

/// The dotted key of an entry: the entry's own key under an empty
/// prefix, otherwise the prefix, a dot and the key.
pub open spec fn joined_key(prefix: Seq<char>, key: Seq<char>) -> Seq<char> {
    if prefix.len() == 0 {
        key
    } else {
        prefix + seq!['.'] + key
    }
}

/// The dotted-key/text pairs of a subtree, in document order: a leaf
/// yields its prefix and text, a table yields its entries' pairs under
/// their dotted keys.
pub open spec fn flat_pairs(prefix: Seq<char>, tree: LocaleTree) -> Seq<(Seq<char>, Seq<char>)>
    decreases tree,
{
    match tree {
        LocaleTree::Leaf(text) => seq![(prefix, text@)],
        LocaleTree::Table(entries) => flat_entry_pairs(prefix, entries@),
    }
}

/// The dotted-key/text pairs of a table's entries, in order.
pub open spec fn flat_entry_pairs(prefix: Seq<char>, entries: Seq<(String, LocaleTree)>) -> Seq<
    (Seq<char>, Seq<char>),
>
    decreases entries,
{
    if entries.len() == 0 {
        Seq::empty()
    } else {
        flat_entry_pairs(prefix, entries.drop_last()) + flat_pairs(
            joined_key(prefix, entries.last().0@),
            entries.last().1,
        )
    }
}

/// The dotted-key/text pairs of a whole locale document: the pairs of
/// the root table's entries. A document whose root is no table holds no
/// translations.
pub open spec fn doc_pairs(tree: LocaleTree) -> Seq<(Seq<char>, Seq<char>)> {
    match tree {
        LocaleTree::Table(entries) => flat_entry_pairs(Seq::empty(), entries@),
        LocaleTree::Leaf(_) => Seq::empty(),
    }
}

/// The locale tree that the TOML text `s` parses to, or nothing when
/// `s` is no valid TOML document; a function of the text alone.
pub uninterp spec fn locale_tree_of(s: Seq<char>) -> Option<LocaleTree>;

/// The most recent binding of `key` in an ordered list of key/value
/// pairs: a later pair overwrites an earlier one with the same key.
pub open spec fn lookup_pairs(pairs: Seq<(Seq<char>, Seq<char>)>, key: Seq<char>) -> Option<
    Seq<char>,
>
    decreases pairs.len(),
{
    if pairs.len() == 0 {
        None
    } else if pairs.last().0 == key {
        Some(pairs.last().1)
    } else {
        lookup_pairs(pairs.drop_last(), key)
    }
}

/// A read-only snapshot of translated strings, keyed by dotted key.
pub struct Translations {
    entries: Vec<(String, String)>,
}

impl Translations {
    /// The table's contents: its key/value pairs in insertion order.
    pub closed spec fn model(self) -> Seq<(Seq<char>, Seq<char>)> {
        pairs_view(self.entries@)
    }

    /// An empty table: every lookup falls back to the key itself.
    pub fn empty() -> (table: Translations)
        ensures
            table.model() == Seq::<(Seq<char>, Seq<char>)>::empty(),
    {
        let table = Translations { entries: Vec::new() };
        proof {
            assert(table.model() =~= Seq::<(Seq<char>, Seq<char>)>::empty());
        }
        table
    }

    /// Build a table directly from key/value pairs; a later pair
    /// overwrites an earlier one with the same key.
    pub fn from_pairs(pairs: Vec<(String, String)>) -> (table: Translations)
        ensures
            table.model() == pairs_view(pairs@),
    {
        Translations { entries: pairs }
    }

    /// Translate `key`: the most recently inserted value bound to it, or
    /// the key itself unchanged when no value is bound to it.
    pub fn get(&self, key: &str) -> (result: String)
        ensures
            result@ == match lookup_pairs(self.model(), key@) {
                Some(value) => value,
                None => key@,
            },
    {
        let key_string: String = key.to_owned();
        let mut i: usize = self.entries.len();
        proof {
            assert(self.model().take(i as int) =~= self.model());
        }
        while i > 0
            invariant
                i <= self.entries.len(),
                key_string@ == key@,
                lookup_pairs(self.model(), key@) == lookup_pairs(
                    self.model().take(i as int),
                    key@,
                ),
            decreases i,
        {
            i = i - 1;
            proof {
                assert(self.model().take(i + 1 as int).last() == self.model()[i as int]);
                assert(self.model().take(i + 1 as int).drop_last() =~= self.model().take(
                    i as int,
                ));
            }
            if self.entries[i].0 == key_string {
                return self.entries[i].1.clone();
            }
        }
        proof {
            assert(self.model().take(0) =~= Seq::<(Seq<char>, Seq<char>)>::empty());
        }
        key_string
    }
}

#[verifier::external_type_specification]
#[verifier::external_body]
pub struct ExTomlValue(toml::Value);

/// Relies on toml's `Value` tree: each node is carried over one for
/// one — a TOML string to a leaf of its text, a table to a table of its
/// entries in the crate's iteration order, and any other value to a
/// leaf of that value's display form.
#[verifier::external_body]
fn tree_of_value(value: &toml::Value) -> LocaleTree {
    match value {
        toml::Value::String(text) => LocaleTree::Leaf(text.clone()),
        toml::Value::Table(table) => {
            let mut entries: Vec<(String, LocaleTree)> = Vec::new();
            for (key, child) in table.iter() {
                entries.push((key.clone(), tree_of_value(child)));
            }
            LocaleTree::Table(entries)
        },
        other => LocaleTree::Leaf(other.to_string()),
    }
}

/// Relies on toml::from_str: a valid TOML document parses to its value
/// tree, an invalid one is rejected, and the outcome depends on the
/// text alone.
#[verifier::external_body]
fn parse_locale_tree(content: &str) -> (result: Option<LocaleTree>)
    ensures
        result == locale_tree_of(content@),
{
    match toml::from_str::<toml::Value>(content) {
        Ok(value) => Some(tree_of_value(&value)),
        Err(_) => None,
    }
}

/// Join a prefix and a key into the entry's dotted key.
fn dotted_key(prefix: &String, key: &String) -> (result: String)
    ensures
        result@ == joined_key(prefix@, key@),
{
    if prefix.as_str().is_empty() {
        key.clone()
    } else {
        proof {
            reveal_strlit(".");
            assert("."@ =~= seq!['.']);
        }
        let mut result = prefix.clone();
        result.append(".");
        result.append(key.as_str());
        result
    }
}

/// Append a subtree's dotted-key/text pairs to `out`, in document
/// order.
fn flatten_into(prefix: &String, tree: &LocaleTree, out: &mut Vec<(String, String)>)
    ensures
        pairs_view(final(out)@) == pairs_view(old(out)@) + flat_pairs(prefix@, *tree),
    decreases *tree,
{
    match tree {
        LocaleTree::Leaf(text) => {
            out.push((prefix.clone(), text.clone()));
            proof {
                assert(pairs_view(out@) =~= pairs_view(old(out)@) + flat_pairs(prefix@, *tree));
            }
        },
        LocaleTree::Table(entries) => {
            let ghost start = out@;
            let mut i: usize = 0;
            proof {
                assert(entries@.take(0) =~= Seq::<(String, LocaleTree)>::empty());
                assert(pairs_view(out@) =~= pairs_view(start) + flat_entry_pairs(
                    prefix@,
                    entries@.take(0),
                ));
            }
            while i < entries.len()
                invariant
                    i <= entries.len(),
                    *tree == LocaleTree::Table(*entries),
                    pairs_view(out@) == pairs_view(start) + flat_entry_pairs(
                        prefix@,
                        entries@.take(i as int),
                    ),
                decreases entries.len() - i,
            {
                let entry = &entries[i];
                proof {
                    assert(decreases_to!(*tree => tree->Table_0));
                    assert(decreases_to!(tree->Table_0 => tree->Table_0@));
                    assert(decreases_to!(entries@ => entries@[i as int]));
                    assert(decreases_to!(entries@[i as int] => entries@[i as int].1));
                    assert(decreases_to!(*tree => entries@[i as int].1));
                }
                let child_prefix = dotted_key(prefix, &entry.0);
                flatten_into(&child_prefix, &entry.1, out);
                proof {
                    assert(entries@.take(i + 1 as int).drop_last() =~= entries@.take(i as int));
                    assert(entries@.take(i + 1 as int).last() == entries@[i as int]);
                    assert(pairs_view(out@) =~= pairs_view(start) + flat_entry_pairs(
                        prefix@,
                        entries@.take(i + 1 as int),
                    ));
                }
                i = i + 1;
            }
            proof {
                assert(entries@.take(entries@.len() as int) =~= entries@);
            }
        },
    }
}

/// Build the translation table from the text of a locale document: its
/// leaves under their dotted keys, in document order. An invalid
/// document yields no table.
pub fn load(content: &str) -> (result: Option<Translations>)
    ensures
        match locale_tree_of(content@) {
            Some(tree) => match result {
                Some(table) => table.model() == doc_pairs(tree),
                None => false,
            },
            None => result is None,
        },
{
    match parse_locale_tree(content) {
        None => None,
        Some(tree) => match &tree {
            LocaleTree::Leaf(_) => Some(Translations::empty()),
            LocaleTree::Table(_) => {
                let prefix = String::new();
                let mut out: Vec<(String, String)> = Vec::new();
                proof {
                    assert(pairs_view(out@) =~= Seq::<(Seq<char>, Seq<char>)>::empty());
                }
                flatten_into(&prefix, &tree, &mut out);
                proof {
                    assert(pairs_view(out@) =~= flat_pairs(prefix@, tree));
                }
                Some(Translations::from_pairs(out))
            },
        },
    }
}

} // verus!
