//! The values that scenes hand to one another, kept under string keys.

use vstd::prelude::*;
use vstd::string::StringExecFns;

use crate::names::{distinct, find_name, has_name, lemma_place_of, names_of, place_of};

verus! {

/// A value kept in the registry.
#[derive(Clone, Copy, Debug, PartialEq, Eq, Structural)]
pub enum RegistryItem {
    Number(usize),
}

/// The decimal digits of `n`, most significant first, without leading zeros.
pub open spec fn decimal(n: nat) -> Seq<char>
    decreases n,
{
    if n < 10 {
        seq![digit(n)]
    } else {
        decimal(n / 10).push(digit(n % 10))
    }
}

/// The character of a single decimal digit.
pub open spec fn digit(d: nat) -> char {
    if d == 0 {
        '0'
    } else if d == 1 {
        '1'
    } else if d == 2 {
        '2'
    } else if d == 3 {
        '3'
    } else if d == 4 {
        '4'
    } else if d == 5 {
        '5'
    } else if d == 6 {
        '6'
    } else if d == 7 {
        '7'
    } else if d == 8 {
        '8'
    } else {
        '9'
    }
}

/// How many decimal digits `n` has.
pub open spec fn decimal_len(n: nat) -> nat
    decreases n,
{
    if n < 10 {
        1
    } else {
        decimal_len(n / 10) + 1
    }
}

/// The text of a number has as many characters as the number has digits.
pub proof fn lemma_decimal_len(n: nat)
    ensures
        decimal(n).len() == decimal_len(n),
    decreases n,
{
    if n >= 10 {
        lemma_decimal_len(n / 10);
    }
}

/// Ten to the power of `k`.
pub open spec fn pow10(k: nat) -> nat
    decreases k,
{
    if k == 0 {
        1
    } else {
        10 * pow10((k - 1) as nat)
    }
}

/// A number below ten to the power of `k` has at most `k` digits.
pub proof fn lemma_decimal_len_bound(n: nat, k: nat)
    requires
        k >= 1,
        n < pow10(k),
    ensures
        decimal_len(n) <= k,
    decreases k,
{
    reveal_with_fuel(pow10, 2);
    if n >= 10 {
        lemma_decimal_len_bound(n / 10, (k - 1) as nat);
    }
}

/// No number that a `usize` holds has more than twenty digits.
pub proof fn lemma_decimal_len_of_usize(n: usize)
    ensures
        1 <= decimal_len(n as nat) <= 20,
{
    assert(pow10(20) == 100_000_000_000_000_000_000nat) by {
        reveal_with_fuel(pow10, 21);
    }
    lemma_decimal_len_bound(n as nat, 20);
}

fn digit_text(d: usize) -> (text: &'static str)
    requires
        d < 10,
    ensures
        text@ == seq![digit(d as nat)],
{
    proof {
        reveal_strlit("0");
        reveal_strlit("1");
        reveal_strlit("2");
        reveal_strlit("3");
        reveal_strlit("4");
        reveal_strlit("5");
        reveal_strlit("6");
        reveal_strlit("7");
        reveal_strlit("8");
        reveal_strlit("9");
    }
    let text = if d == 0 {
        "0"
    } else if d == 1 {
        "1"
    } else if d == 2 {
        "2"
    } else if d == 3 {
        "3"
    } else if d == 4 {
        "4"
    } else if d == 5 {
        "5"
    } else if d == 6 {
        "6"
    } else if d == 7 {
        "7"
    } else if d == 8 {
        "8"
    } else {
        "9"
    };
    assert(text@ =~= seq![digit(d as nat)]);
    text
}

fn decimal_text(n: usize) -> (text: String)
    ensures
        text@ == decimal(n as nat),
    decreases n,
{
    if n < 10 {
        String::from_str(digit_text(n))
    } else {
        let mut text = decimal_text(n / 10);
        text.append(digit_text(n % 10));
        assert(text@ =~= decimal(n as nat));
        text
    }
}

impl RegistryItem {
    /// What the item reads as, as a spec value.
    pub open spec fn text(self) -> Seq<char> {
        match self {
            RegistryItem::Number(number) => decimal(number as nat),
        }
    }

    /// The item as text: a number in decimal digits.
    pub fn to_string(&self) -> (text: String)
        ensures
            text@ == self.text(),
    {
        match self {
            RegistryItem::Number(number) => decimal_text(*number),
        }
    }
}

/// A map from string keys to items: the state that outlives a scene.
pub struct Registry {
    entries: Vec<(String, RegistryItem)>,
}

impl View for Registry {
    type V = Map<Seq<char>, RegistryItem>;

    closed spec fn view(&self) -> Map<Seq<char>, RegistryItem> {
        contents(self.entries@)
    }
}

spec fn contents(entries: Seq<(String, RegistryItem)>) -> Map<Seq<char>, RegistryItem> {
    Map::new(
        |key: Seq<char>| has_name(names_of(entries), key),
        |key: Seq<char>| entries[place_of(names_of(entries), key)].1,
    )
}

impl Registry {
    #[verifier::type_invariant]
    spec fn keys_distinct(self) -> bool {
        distinct(names_of(self.entries@))
    }

    /// A registry that holds nothing.
    pub fn new() -> (registry: Registry)
        ensures
            registry@ == Map::<Seq<char>, RegistryItem>::empty(),
    {
        let registry = Registry { entries: Vec::new() };
        assert(registry@ =~= Map::<Seq<char>, RegistryItem>::empty());
        registry
    }

    /// Puts the item under the key and returns the item that the key held
    /// before, if it held one.
    pub fn insert(&mut self, key: String, item: RegistryItem) -> (previous: Option<RegistryItem>)
        ensures
            final(self)@ == old(self)@.insert(key@, item),
            previous == (if old(self)@.contains_key(key@) {
                Some(old(self)@[key@])
            } else {
                None
            }),
    {
        proof {
            use_type_invariant(&*self);
        }
        let ghost before = self.entries@;
        let ghost names = names_of(before);
        let mut entries: Vec<(String, RegistryItem)> = Vec::new();
        core::mem::swap(&mut self.entries, &mut entries);
        let previous = match find_name(&entries, key.as_str()) {
            Some(i) => {
                let previous = entries[i].1;
                entries.set(i, (key, item));
                proof {
                    let after = entries@;
                    assert(names_of(after) =~= names);
                    lemma_place_of(names, i as int);
                    assert(contents(after) =~= contents(before).insert(key@, item)) by {
                        assert forall|k: Seq<char>| has_name(names, k) && k != key@ implies (
                        #[trigger] contents(after)[k]) == contents(before)[k] by {
                            let j = place_of(names, k);
                            assert(j != i);
                        }
                    }
                }
                Some(previous)
            },
            None => {
                entries.push((key, item));
                proof {
                    let after = entries@;
                    let grown = names_of(after);
                    let last = before.len() as int;
                    assert(grown =~= names.push(key@));
                    assert(distinct(grown)) by {
                        assert forall|i: int, j: int| 0 <= i < j < grown.len() implies grown[i]
                            != grown[j] by {
                            if j == last {
                                assert(names[i] != key@);
                            }
                        }
                    }
                    lemma_place_of(grown, last);
                    assert(contents(after) =~= contents(before).insert(key@, item)) by {
                        assert forall|k: Seq<char>| has_name(names, k) implies has_name(grown, k)
                            && place_of(grown, k) == place_of(names, k) by {
                            let j = place_of(names, k);
                            assert(grown[j] == k);
                            lemma_place_of(grown, j);
                        }
                        assert forall|k: Seq<char>| has_name(grown, k) && k != key@ implies has_name(
                            names,
                            k,
                        ) by {
                            let j = place_of(grown, k);
                            assert(j != last);
                            assert(names[j] == k);
                        }
                    }
                }
                None
            },
        };
        core::mem::swap(&mut self.entries, &mut entries);
        previous
    }

    /// The item under the key, if the key holds one.
    pub fn get(&self, key: &str) -> (item: Option<RegistryItem>)
        ensures
            item == (if self@.contains_key(key@) {
                Some(self@[key@])
            } else {
                None
            }),
    {
        proof {
            use_type_invariant(self);
        }
        match find_name(&self.entries, key) {
            Some(i) => {
                proof {
                    lemma_place_of(names_of(self.entries@), i as int);
                }
                Some(self.entries[i].1)
            },
            None => None,
        }
    }

    /// Whether the key holds an item.
    pub fn contains_key(&self, key: &str) -> (held: bool)
        ensures
            held == self@.contains_key(key@),
    {
        find_name(&self.entries, key).is_some()
    }

    /// How many keys hold an item.
    pub fn len(&self) -> (count: usize)
        ensures
            count == self@.dom().len(),
            self@.dom().finite(),
    {
        proof {
            use_type_invariant(self);
            lemma_contents_count(self.entries@);
        }
        self.entries.len()
    }
}

proof fn lemma_contents_count(entries: Seq<(String, RegistryItem)>)
    requires
        distinct(names_of(entries)),
    ensures
        contents(entries).dom().finite(),
        contents(entries).dom().len() == entries.len(),
    decreases entries.len(),
{
    let names = names_of(entries);
    if entries.len() == 0 {
        assert(contents(entries).dom() =~= Set::<Seq<char>>::empty());
    } else {
        let shorter = entries.drop_last();
        let last = entries.len() - 1;
        assert(names_of(shorter) =~= names.drop_last());
        lemma_contents_count(shorter);
        assert(contents(entries).dom() =~= contents(shorter).dom().insert(names[last])) by {
            assert forall|k: Seq<char>| has_name(names, k) implies k == names[last] || has_name(
                names_of(shorter),
                k,
            ) by {
                let j = place_of(names, k);
                if j != last {
                    assert(names_of(shorter)[j] == k);
                }
            }
            assert forall|k: Seq<char>| has_name(names_of(shorter), k) implies has_name(names, k) by {
                let j = place_of(names_of(shorter), k);
                assert(names[j] == k);
            }
            assert(has_name(names, names[last]));
        }
        assert(!contents(shorter).dom().contains(names[last])) by {
            if has_name(names_of(shorter), names[last]) {
                let j = place_of(names_of(shorter), names[last]);
                assert(names[j] == names[last]);
            }
        }
    }
}

} // verus!
