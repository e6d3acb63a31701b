//! The token dictionary of a packed script.

use vstd::prelude::*;
use crate::error::StructuralFault;
use crate::keys::{encode_key, key_injective, key_spec, radix_supported, ALPHABET_SIZE};

verus! {

/// The fault, if any, of a dictionary of `count` entries in `radix` whose
/// payload holds `available` entries. An empty dictionary needs no key, so
/// nothing is asked of its radix.
pub open spec fn decode_fault(radix: usize, count: usize, available: usize) -> Option<
    StructuralFault,
> {
    if count == 0 {
        None
    } else if radix > ALPHABET_SIZE {
        Some(StructuralFault::RadixTooLarge { radix })
    } else if radix < 2 {
        Some(StructuralFault::RadixTooSmall { radix })
    } else if count > available {
        Some(StructuralFault::DictionaryTooShort { declared: count, available })
    } else {
        None
    }
}

/// The word that entry `index` stands for: the payload's word, or, where the
/// payload leaves it empty, the entry's own key.
pub open spec fn entry_spec(radix: nat, payload: Seq<Seq<char>>, index: nat) -> Seq<char> {
    if payload[index as int].len() == 0 {
        key_spec(index, radix)
    } else {
        payload[index as int]
    }
}

/// Whether `key` is the key of one of the first `count` entries.
pub open spec fn is_key(radix: nat, count: nat, key: Seq<char>) -> bool {
    exists|i: nat| i < count && key_spec(i, radix) == key
}

/// An entry among the first `count` that `key` addresses.
pub open spec fn entry_of_key(radix: nat, count: nat, key: Seq<char>) -> nat {
    choose|i: nat| i < count && key_spec(i, radix) == key
}

/// The dictionary of the first `count` entries of `payload` in `radix`: each
/// key mapped to the word of its entry.
pub open spec fn dictionary_spec(radix: nat, count: nat, payload: Seq<Seq<char>>) -> Map<
    Seq<char>,
    Seq<char>,
> {
    Map::new(
        |key: Seq<char>| is_key(radix, count, key),
        |key: Seq<char>| entry_spec(radix, payload, entry_of_key(radix, count, key)),
    )
}

/// What a token of the script becomes: the dictionary's word for it, or the
/// token itself where the dictionary has none.
pub open spec fn substitution(dictionary: Map<Seq<char>, Seq<char>>, token: Seq<char>) -> Seq<
    char,
> {
    if dictionary.contains_key(token) {
        dictionary[token]
    } else {
        token
    }
}

/// Every entry is found again under its own key, whatever other entries the
/// dictionary holds: no two entries share a key, so none hides another.
pub proof fn entry_found_by_key(radix: nat, count: nat, payload: Seq<Seq<char>>, index: nat)
    requires
        radix_supported(radix),
        index < count,
    ensures
        dictionary_spec(radix, count, payload).contains_key(key_spec(index, radix)),
        dictionary_spec(radix, count, payload)[key_spec(index, radix)] == entry_spec(
            radix,
            payload,
            index,
        ),
        entry_of_key(radix, count, key_spec(index, radix)) == index,
{
    let key = key_spec(index, radix);
    assert(is_key(radix, count, key));
    let found = entry_of_key(radix, count, key);
    key_injective(found, index, radix);
}

/// The dictionary of a packed script: the words that its keys stand for.
///
/// The entries are kept in the order of their keys, and a token is resolved
/// to the first entry that bears it. This is what a map holds that was
/// filled from the last entry to the first: were two entries to share a key,
/// the earlier one would stand.
pub struct TokenDictionary {
    keys: Vec<String>,
    words: Vec<String>,
}

/// Whether `keys` holds `key`.
spec fn holds_key(keys: Seq<String>, key: Seq<char>) -> bool {
    exists|p: int| 0 <= p < keys.len() && keys[p]@ == key
}

/// Whether `p` holds `key` and no earlier position does.
spec fn is_first_position(keys: Seq<String>, key: Seq<char>, p: int) -> bool {
    0 <= p < keys.len() && keys[p]@ == key && forall|q: int| 0 <= q < p ==> keys[q]@ != key
}

/// The first position of `keys` that holds `key`.
spec fn first_position(keys: Seq<String>, key: Seq<char>) -> int {
    choose|p: int| is_first_position(keys, key, p)
}

/// Before a position that holds `key` there is a first one that does.
proof fn first_position_before(keys: Seq<String>, key: Seq<char>, p: int) -> (f: int)
    requires
        0 <= p < keys.len(),
        keys[p]@ == key,
    ensures
        is_first_position(keys, key, f),
    decreases p,
{
    if exists|q: int| 0 <= q < p && keys[q]@ == key {
        let q = choose|q: int| 0 <= q < p && keys[q]@ == key;
        first_position_before(keys, key, q)
    } else {
        p
    }
}

/// Where `keys` holds `key`, its first position holds it.
proof fn first_position_holds(keys: Seq<String>, key: Seq<char>)
    requires
        holds_key(keys, key),
    ensures
        is_first_position(keys, key, first_position(keys, key)),
{
    let p = choose|p: int| 0 <= p < keys.len() && keys[p]@ == key;
    let f = first_position_before(keys, key, p);
}

/// A position that holds `key` and follows none that does is the first one.
proof fn first_position_is(keys: Seq<String>, key: Seq<char>, p: int)
    requires
        0 <= p < keys.len(),
        keys[p]@ == key,
        forall|q: int| 0 <= q < p ==> keys[q]@ != key,
    ensures
        holds_key(keys, key),
        first_position(keys, key) == p,
{
    let f = first_position(keys, key);
    assert(is_first_position(keys, key, p));
    if f < p {
        assert(keys[f]@ != key);
    }
    if p < f {
        assert(keys[p]@ != key);
    }
}

/// The map that a list of keys and the list of their words stand for: each
/// key that occurs, mapped to the word at its first position.
spec fn paired_map(keys: Seq<String>, words: Seq<String>) -> Map<Seq<char>, Seq<char>> {
    Map::new(
        |key: Seq<char>| holds_key(keys, key),
        |key: Seq<char>| words[first_position(keys, key)]@,
    )
}

/// The keys and words of the first `count` entries, listed in order, stand
/// for the dictionary of those entries.
proof fn holds_dictionary(
    keys: Seq<String>,
    words: Seq<String>,
    radix: nat,
    count: nat,
    payload: Seq<Seq<char>>,
)
    requires
        count > 0 ==> radix_supported(radix),
        keys.len() == count,
        words.len() == count,
        forall|p: int| 0 <= p < count ==> (#[trigger] keys[p])@ == key_spec(p as nat, radix),
        forall|p: int|
            0 <= p < count ==> (#[trigger] words[p])@ == entry_spec(radix, payload, p as nat),
    ensures
        paired_map(keys, words) == dictionary_spec(radix, count, payload),
{
    let built = paired_map(keys, words);
    let model = dictionary_spec(radix, count, payload);
    assert forall|key: Seq<char>| built.contains_key(key) == model.contains_key(key) by {
        if holds_key(keys, key) {
            let p = choose|p: int| 0 <= p < keys.len() && keys[p]@ == key;
            assert(key_spec(p as nat, radix) == key);
        }
        if is_key(radix, count, key) {
            let i = choose|i: nat| i < count && key_spec(i, radix) == key;
            assert(keys[i as int]@ == key);
        }
    }
    assert forall|key: Seq<char>| built.contains_key(key) implies built[key] == model[key] by {
        let p = first_position(keys, key);
        let i = entry_of_key(radix, count, key);
        first_position_holds(keys, key);
        assert(key_spec(p as nat, radix) == key);
        assert(is_key(radix, count, key));
        key_injective(p as nat, i, radix);
    }
    assert(built =~= model);
}

impl View for TokenDictionary {
    type V = Map<Seq<char>, Seq<char>>;

    closed spec fn view(&self) -> Map<Seq<char>, Seq<char>> {
        paired_map(self.keys@, self.words@)
    }
}

impl TokenDictionary {
    #[verifier::type_invariant]
    spec fn paired(&self) -> bool {
        self.keys.len() == self.words.len()
    }

    /// Builds the dictionary of the first `count` words of `payload`, keyed in
    /// `radix`. Fails, before any key is written, when the radix cannot be
    /// written with the key alphabet or the payload is too short.
    pub fn decode(radix: usize, count: usize, payload: &Vec<String>) -> (result: Result<
        TokenDictionary,
        StructuralFault,
    >)
        ensures
            match result {
                Ok(dictionary) => decode_fault(radix, count, payload.len()) is None
                    && dictionary@ == dictionary_spec(
                    radix as nat,
                    count as nat,
                    payload.deep_view(),
                ),
                Err(fault) => decode_fault(radix, count, payload.len()) == Some(fault),
            },
    {
        let mut keys: Vec<String> = Vec::new();
        let mut words: Vec<String> = Vec::new();
        if count > 0 {
            if radix > ALPHABET_SIZE {
                return Err(StructuralFault::RadixTooLarge { radix });
            }
            if radix < 2 {
                return Err(StructuralFault::RadixTooSmall { radix });
            }
            if count > payload.len() {
                return Err(
                    StructuralFault::DictionaryTooShort { declared: count, available: payload.len() },
                );
            }
            let ghost plain = payload.deep_view();
            let mut i: usize = 0;
            while i < count
                invariant
                    radix_supported(radix as nat),
                    i <= count <= payload.len(),
                    plain == payload.deep_view(),
                    keys.len() == i,
                    words.len() == i,
                    forall|p: int| 0 <= p < i ==> (#[trigger] keys[p])@ == key_spec(p as nat, radix as nat),
                    forall|p: int|
                        0 <= p < i ==> (#[trigger] words[p])@ == entry_spec(
                            radix as nat,
                            plain,
                            p as nat,
                        ),
                decreases count - i,
            {
                let key = encode_key(i as u64, radix);
                assert(plain[i as int] == payload[i as int]@);
                let word = if payload[i].as_str().is_empty() {
                    key.clone()
                } else {
                    payload[i].clone()
                };
                keys.push(key);
                words.push(word);
                i = i + 1;
            }
        }
        proof {
            holds_dictionary(keys@, words@, radix as nat, count as nat, payload.deep_view());
        }
        let dictionary = TokenDictionary { keys, words };
        Ok(dictionary)
    }

    /// What `token` becomes: the word that the dictionary holds for it, or the
    /// token unchanged where it is no key.
    pub fn substitute(&self, token: &str) -> (word: String)
        ensures
            word@ == substitution(self@, token@),
    {
        proof {
            use_type_invariant(self);
        }
        let wanted = token.to_owned();
        let mut p: usize = 0;
        while p < self.keys.len()
            invariant
                p <= self.keys.len(),
                self.keys.len() == self.words.len(),
                wanted@ == token@,
                forall|q: int| 0 <= q < p ==> self.keys[q]@ != token@,
            decreases self.keys.len() - p,
        {
            if self.keys[p] == wanted {
                proof {
                    first_position_is(self.keys@, token@, p as int);
                }
                return self.words[p].clone();
            }
            p = p + 1;
        }
        assert(!holds_key(self.keys@, token@));
        wanted
    }
}

} // verus!
