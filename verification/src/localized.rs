//! Localized string tables: a keyed map from language codes to display
//! text, together with the resolution rules that never fail — a missing
//! language yields a visibly flagged placeholder instead of an error.

use vstd::prelude::*;
use vstd::string::StringExecFns;
use crate::table::{table_lookup, lemma_table_lookup_found, lemma_table_lookup_none, lemma_table_lookup_push_other, lemma_table_lookup_same_keys};

verus! {

/// Exact string equality, decided on the character sequences.
pub fn str_eq(a: &str, b: &str) -> (r: bool)
    ensures
        r == (a@ == b@),
{
    let x: String = a.to_owned();
    let y: String = b.to_owned();
    x == y
}

/// The text stored under `key`, or `None` if the key is absent
/// (first-match lookup).
pub open spec fn lookup(m: Seq<(Seq<char>, Seq<char>)>, key: Seq<char>) -> Option<Seq<char>> {
    table_lookup(m, key)
}

/// A map from language keys to display text. Reads go through first-match
/// lookup; `insert` replaces the value of an existing key in place, so a
/// table built through this interface behaves like a keyed map.
pub struct LocalizedStrings {
    pairs: Vec<(String, String)>,
}

impl View for LocalizedStrings {
    type V = Seq<(Seq<char>, Seq<char>)>;

    closed spec fn view(&self) -> Seq<(Seq<char>, Seq<char>)> {
        self.pairs@.map_values(|p: (String, String)| (p.0@, p.1@))
    }
}

impl LocalizedStrings {
    /// An empty table.
    pub fn new() -> (r: LocalizedStrings)
        ensures
            r@ == Seq::<(Seq<char>, Seq<char>)>::empty(),
    {
        let r = LocalizedStrings { pairs: Vec::new() };
        proof {
            assert(r@ =~= Seq::<(Seq<char>, Seq<char>)>::empty());
        }
        r
    }

    /// The text stored under `key`, if any.
    pub fn get(&self, key: &str) -> (r: Option<&String>)
        ensures
            match r {
                Some(v) => lookup(self@, key@) == Some(v@),
                None => lookup(self@, key@) is None,
            },
    {
        let n = self.pairs.len();
        let mut i: usize = 0;
        while i < n
            invariant
                n == self.pairs.len(),
                i <= n,
                forall|j: int| 0 <= j < i ==> (#[trigger] self@[j]).0 != key@,
            decreases n - i,
        {
            if str_eq(self.pairs[i].0.as_str(), key) {
                proof {
                    lemma_table_lookup_found(self@, key@, 0, i as int);
                }
                return Some(&self.pairs[i].1);
            }
            i = i + 1;
        }
        proof {
            lemma_table_lookup_none(self@, key@, 0);
        }
        None
    }

    /// Store `value` under `key`, replacing any existing entry for that key.
    /// Lookups of every other key are unaffected.
    pub fn insert(&mut self, key: &str, value: String)
        ensures
            lookup(final(self)@, key@) == Some(value@),
            forall|k: Seq<char>| k != key@ ==> #[trigger] lookup(final(self)@, k) == lookup(
                old(self)@,
                k,
            ),
            final(self)@.len() == old(self)@.len() + (
            if lookup(old(self)@, key@) is Some {
                0int
            } else {
                1int
            }),
    {
        let n = self.pairs.len();
        let mut i: usize = 0;
        while i < n
            invariant
                n == self.pairs.len(),
                i <= n,
                self.pairs == old(self).pairs,
                forall|j: int| 0 <= j < i ==> (#[trigger] self@[j]).0 != key@,
            decreases n - i,
        {
            if str_eq(self.pairs[i].0.as_str(), key) {
                proof {
                    lemma_table_lookup_found(self@, key@, 0, i as int);
                }
                let ghost pre = self@;
                let kept = self.pairs.remove(i);
                self.pairs.insert(i, (kept.0, value));
                proof {
                    assert(self@ =~= pre.update(i as int, (key@, value@)));
                    lemma_table_lookup_found(self@, key@, 0, i as int);
                    assert forall|k: Seq<char>| k != key@ implies #[trigger] lookup(self@, k)
                        == lookup(pre, k) by {
                        lemma_table_lookup_same_keys(self@, pre, k, 0);
                    }
                }
                return ;
            }
            i = i + 1;
        }
        proof {
            lemma_table_lookup_none(self@, key@, 0);
        }
        let ghost pre = self@;
        self.pairs.push((key.to_owned(), value));
        proof {
            assert(self@ =~= pre.push((key@, value@)));
            lemma_table_lookup_found(self@, key@, 0, pre.len() as int);
            assert forall|k: Seq<char>| k != key@ implies #[trigger] lookup(self@, k) == lookup(
                pre,
                k,
            ) by {
                lemma_table_lookup_push_other(pre, (key@, value@), k, 0);
            }
        }
    }

    /// The number of entries in the table.
    pub fn len(&self) -> (r: usize)
        ensures
            r == self@.len(),
    {
        self.pairs.len()
    }
}

impl Clone for LocalizedStrings {
    /// A clone holds the same keys and the same text.
    fn clone(&self) -> (r: Self)
        ensures
            r@ == self@,
    {
        let n = self.pairs.len();
        let mut pairs: Vec<(String, String)> = Vec::new();
        let mut i: usize = 0;
        while i < n
            invariant
                n == self.pairs.len(),
                i <= n,
                pairs@.len() == i,
                forall|j: int| 0 <= j < i ==> (#[trigger] pairs@[j]).0@ == self@[j].0
                    && pairs@[j].1@ == self@[j].1,
            decreases n - i,
        {
            pairs.push((self.pairs[i].0.clone(), self.pairs[i].1.clone()));
            i = i + 1;
        }
        let r = LocalizedStrings { pairs };
        proof {
            assert(r@ =~= self@);
        }
        r
    }
}

/// The placeholder shown when an entry has no text for the requested
/// language: the language code, visibly flagged.
pub open spec fn missing_text_placeholder(language: Seq<char>) -> Seq<char> {
    "[No text in "@ + language + "]"@
}

/// What `resolve` returns: the stored text on a hit, the placeholder on a
/// miss — localization gaps never halt playback.
pub open spec fn resolve_spec(m: Seq<(Seq<char>, Seq<char>)>, language: Seq<char>) -> Seq<char> {
    match lookup(m, language) {
        Some(v) => v,
        None => missing_text_placeholder(language),
    }
}

/// Look up the text for `language`, falling back to a deterministic
/// placeholder that embeds the missing language code.
pub fn resolve(map: &LocalizedStrings, language: &str) -> (r: String)
    ensures
        r@ == resolve_spec(map@, language@),
{
    match map.get(language) {
        Some(v) => v.clone(),
        None => {
            let mut s = String::from_str("[No text in ");
            s.append(language);
            s.append("]");
            s
        },
    }
}

/// The placeholder shown when a choice has no text for the requested
/// language.
pub open spec fn missing_choice_placeholder(language: Seq<char>) -> Seq<char> {
    "[No choice text in "@ + language + "]"@
}

/// What `resolve_choice_text` returns.
pub open spec fn resolve_choice_spec(
    m: Seq<(Seq<char>, Seq<char>)>,
    language: Seq<char>,
) -> Seq<char> {
    match lookup(m, language) {
        Some(v) => v,
        None => missing_choice_placeholder(language),
    }
}

/// Look up a choice's display text for `language`, falling back to a
/// placeholder that embeds the missing language code.
pub fn resolve_choice_text(map: &LocalizedStrings, language: &str) -> (r: String)
    ensures
        r@ == resolve_choice_spec(map@, language@),
{
    match map.get(language) {
        Some(v) => v.clone(),
        None => {
            let mut s = String::from_str("[No choice text in ");
            s.append(language);
            s.append("]");
            s
        },
    }
}

/// A language absent from a table resolves to the placeholder, which
/// contains the requested language code verbatim.
pub proof fn lemma_resolve_fallback_contains_language(
    m: Seq<(Seq<char>, Seq<char>)>,
    language: Seq<char>,
)
    requires
        lookup(m, language) is None,
    ensures
        resolve_spec(m, language) == missing_text_placeholder(language),
        resolve_spec(m, language).len() == language.len() + 13,
        resolve_spec(m, language).subrange(12, 12 + language.len() as int) == language,
{
    reveal_strlit("[No text in ");
    reveal_strlit("]");
    assert(resolve_spec(m, language).subrange(12, 12 + language.len() as int) =~= language);
}

} // verus!
