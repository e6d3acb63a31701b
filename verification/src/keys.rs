//! The positional keys of a token dictionary.
//!
//! Entry `i` of a dictionary is addressed by the numeral of `i` in the
//! script's radix, written with the digits `0-9`, `a-z`, `A-Z`.

use vstd::prelude::*;

verus! {

/// The number of symbols in the key alphabet: ten digits, then the lower-case
/// and the upper-case letters.
pub const ALPHABET_SIZE: usize = 62;

/// Whether keys can be written in `radix`.
pub open spec fn radix_supported(radix: nat) -> bool {
    2 <= radix <= ALPHABET_SIZE
}

/// The symbol that stands for the digit `d`.
pub open spec fn symbol(d: nat) -> char {
    if d < 10 {
        (48 + d) as char
    } else if d < 36 {
        (87 + d) as char
    } else {
        (29 + d) as char
    }
}

/// The key of entry `index`: its numeral in `radix`, most significant digit
/// first, without leading zeros.
#[verifier::opaque]
pub open spec fn key_spec(index: nat, radix: nat) -> Seq<char>
    decreases index,
    via key_spec_decreases
{
    if radix < 2 || index < radix {
        seq![symbol(index)]
    } else {
        key_spec(index / radix, radix).push(symbol(index % radix))
    }
}

#[via_fn]
proof fn key_spec_decreases(index: nat, radix: nat) {
    if radix >= 2 && index >= radix {
        quotient_smaller(index, radix);
    }
}

/// Dividing by two or more makes a positive number smaller.
proof fn quotient_smaller(index: nat, radix: nat)
    requires
        radix >= 2,
        index >= radix,
    ensures
        index / radix < index,
        index % radix < radix,
        index == radix * (index / radix) + index % radix,
{
    assert(index / radix < index) by (nonlinear_arith)
        requires
            radix >= 2,
            index >= radix,
    ;
    assert(index % radix < radix) by (nonlinear_arith)
        requires
            radix >= 2,
    ;
    assert(index == radix * (index / radix) + index % radix) by (nonlinear_arith)
        requires
            radix >= 2,
    ;
}

/// Distinct digits have distinct symbols.
pub proof fn symbol_injective(d: nat, e: nat)
    requires
        d < ALPHABET_SIZE,
        e < ALPHABET_SIZE,
        symbol(d) == symbol(e),
    ensures
        d == e,
{
    assert(symbol(d) as nat == if d < 10 {
        48 + d
    } else if d < 36 {
        87 + d
    } else {
        29 + d
    });
    assert(symbol(e) as nat == if e < 10 {
        48 + e
    } else if e < 36 {
        87 + e
    } else {
        29 + e
    });
}

/// A key is never empty.
pub proof fn key_nonempty(index: nat, radix: nat)
    ensures
        key_spec(index, radix).len() >= 1,
    decreases index,
{
    reveal(key_spec);
    if radix >= 2 && index >= radix {
        quotient_smaller(index, radix);
        key_nonempty(index / radix, radix);
    }
}

/// Distinct entries have distinct keys: in a supported radix the key of an
/// entry determines the entry.
pub proof fn key_injective(i: nat, j: nat, radix: nat)
    requires
        radix_supported(radix),
        key_spec(i, radix) == key_spec(j, radix),
    ensures
        i == j,
    decreases i,
{
    reveal(key_spec);
    if i < radix && j < radix {
        assert(key_spec(i, radix)[0] == symbol(i));
        assert(key_spec(j, radix)[0] == symbol(j));
        symbol_injective(i, j);
    } else if i < radix {
        key_nonempty(j / radix, radix);
        assert(key_spec(j, radix).len() >= 2);
    } else if j < radix {
        key_nonempty(i / radix, radix);
        assert(key_spec(i, radix).len() >= 2);
    } else {
        let ki = key_spec(i / radix, radix);
        let kj = key_spec(j / radix, radix);
        let si = symbol(i % radix);
        let sj = symbol(j % radix);
        assert(ki.push(si) == kj.push(sj));
        assert(ki.push(si).last() == si);
        assert(kj.push(sj).last() == sj);
        assert(ki.push(si).drop_last() == ki);
        assert(kj.push(sj).drop_last() == kj);
        quotient_smaller(i, radix);
        quotient_smaller(j, radix);
        symbol_injective(i % radix, j % radix);
        key_injective(i / radix, j / radix, radix);
    }
}

/// The symbol that stands for the digit `d`.
pub fn symbol_of(d: usize) -> (c: char)
    requires
        d < ALPHABET_SIZE,
    ensures
        c == symbol(d as nat),
{
    let code: u8 = if d < 10 {
        48 + d as u8
    } else if d < 36 {
        87 + d as u8
    } else {
        29 + d as u8
    };
    code as char
}

/// Writes the key of entry `index` in `radix`.
pub fn encode_key(index: u64, radix: usize) -> (key: String)
    requires
        radix_supported(radix as nat),
    ensures
        key@ == key_spec(index as nat, radix as nat),
    decreases index,
{
    proof {
        reveal(key_spec);
    }
    let base = radix as u64;
    if index < base {
        let mut key = String::new();
        key.push(symbol_of(index as usize));
        assert(key@ == seq![symbol(index as nat)]);
        key
    } else {
        proof {
            quotient_smaller(index as nat, radix as nat);
        }
        let mut key = encode_key(index / base, radix);
        key.push(symbol_of((index % base) as usize));
        key
    }
}

} // verus!
