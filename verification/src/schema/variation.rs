//! The `variation` enum of the bindings: one variant per supported group
//! and variation, named `group<g>var<v>` (or `group<g>` for the octet
//! strings), in the order of the table below.
use vstd::prelude::*;
use vstd::string::StringExecFns;

use oo_bindgen::model::{BackTracedBindingError, EnumBuilder, EnumHandle, LibraryBuilder};

verus! {

#[verifier::external_type_specification]
#[verifier::external_body]
pub struct ExLibraryBuilder(LibraryBuilder);

#[verifier::external_type_specification]
#[verifier::external_body]
pub struct ExEnumBuilder<'a>(EnumBuilder<'a>);

#[verifier::external_type_specification]
#[verifier::external_body]
pub struct ExBackTracedBindingError(BackTracedBindingError);

/// The enum that `define` builds: the generator's handle to it.
#[verifier::external_body]
pub struct VariationEnum {
    pub handle: EnumHandle,
}

/// The names of the symbols (enums, classes, functions, ...) that a library
/// defines already.
pub uninterp spec fn library_symbols(lib: LibraryBuilder) -> Set<Seq<char>>;

/// The symbols of the library that an enum builder will add its enum to.
pub uninterp spec fn builder_library_symbols(b: EnumBuilder) -> Set<Seq<char>>;

/// The symbols that the builder's library will hold once the builder's
/// borrow of it ends.
pub uninterp spec fn builder_final_symbols(b: EnumBuilder) -> Set<Seq<char>>;

/// The name of the enum that a builder builds.
pub uninterp spec fn builder_enum_name(b: EnumBuilder) -> Seq<char>;

/// The text of the enum's documentation, once it is set.
pub uninterp spec fn builder_enum_doc(b: EnumBuilder) -> Option<Seq<char>>;

/// The variants that an enum builder holds, in order: name, text of the
/// documentation, value.
pub uninterp spec fn builder_variants(b: EnumBuilder) -> Seq<(Seq<char>, Seq<char>, int)>;

/// The value that the builder gives the next variant it is pushed.
pub uninterp spec fn builder_next_value(b: EnumBuilder) -> int;

/// The name of a built enum.
pub uninterp spec fn built_enum_name(e: VariationEnum) -> Seq<char>;

/// The text of a built enum's documentation.
pub uninterp spec fn built_enum_doc(e: VariationEnum) -> Seq<char>;

/// The variants of a built enum, in order: name, text of the documentation,
/// value.
pub uninterp spec fn built_variants(e: VariationEnum) -> Seq<(Seq<char>, Seq<char>, int)>;

/// No variant of the builder has this name or the value the next one gets.
pub open spec fn fresh_variant(b: EnumBuilder, name: Seq<char>) -> bool {
    forall|i: int|
        0 <= i < builder_variants(b).len() ==> builder_variants(b)[i].0 != name
            && builder_variants(b)[i].2 != builder_next_value(b)
}

/// The enum, its documentation and its library are those of `b`.
pub open spec fn same_enum(n: EnumBuilder, b: EnumBuilder) -> bool {
    &&& builder_enum_name(n) == builder_enum_name(b)
    &&& builder_enum_doc(n) == builder_enum_doc(b)
    &&& builder_library_symbols(n) == builder_library_symbols(b)
}

pub open spec fn is_digit(c: char) -> bool {
    48 <= (c as int) <= 57
}

pub open spec fn is_lower(c: char) -> bool {
    97 <= (c as int) <= 122
}

/// A name of lowercase ASCII letters and digits that starts with a letter.
pub open spec fn plain_name(s: Seq<char>) -> bool {
    &&& s.len() > 0
    &&& is_lower(s[0])
    &&& forall|i: int| 0 <= i < s.len() ==> is_lower(s[i]) || is_digit(s[i])
}

/// `variation`.
pub open spec fn variation_name() -> Seq<char> {
    seq!['v', 'a', 'r', 'i', 'a', 't', 'i', 'o', 'n']
}

/// Names that the generator accepts. Its rules: the name starts with a
/// lowercase ASCII letter; it holds only lowercase letters, digits and
/// underscores, no double underscore and no trailing one; it holds neither
/// reserved phrase (both have underscores); and it is none of the keywords of
/// Rust, C, C++, Java and C#. No keyword holds a digit without an underscore,
/// and none is `variation`.
pub open spec fn accepted_name(s: Seq<char>) -> bool {
    &&& plain_name(s)
    &&& ((exists|i: int| 0 <= i < s.len() && is_digit(s[i])) || s == variation_name())
}

/// The character of a decimal digit.
pub open spec fn digit_char(d: nat) -> char {
    (48 + d) as char
}

/// The decimal digits of `n`, most significant first, without leading zeros.
pub open spec fn decimal(n: nat) -> Seq<char>
    decreases n,
{
    if n < 10 {
        seq![digit_char(n)]
    } else {
        decimal(n / 10).push(digit_char(n % 10))
    }
}

/// `group`.
pub open spec fn group_prefix() -> Seq<char> {
    seq!['g', 'r', 'o', 'u', 'p']
}

/// `group` followed by the group number.
pub open spec fn spec_group_name(group: u8) -> Seq<char> {
    group_prefix() + decimal(group as nat)
}

/// `group`, the group number, `var`, the variation number.
pub open spec fn spec_gv(group: u8, variation: u8) -> Seq<char> {
    spec_group_name(group) + seq!['v', 'a', 'r'] + decimal(variation as nat)
}

/// The name of a table entry: `group<g>var<v>`, or `group<g>` without a
/// variation.
pub open spec fn entry_name(e: (u8, Option<u8>, Seq<char>)) -> Seq<char> {
    match e.1 {
        Some(v) => spec_gv(e.0, v),
        None => spec_group_name(e.0),
    }
}

/// The number of variants.
pub open spec fn variation_count() -> int {
    93
}

/// Entry `i` of the table: group, variation (none for the octet strings), and
/// documentation.
pub open spec fn spec_variation(i: int) -> (u8, Option<u8>, Seq<char>) {
    if i == 0 {
        (1u8, Some(0u8), "Binary Input - Default variation"@)
    } else if i == 1 {
        (1u8, Some(1u8), "Binary Input - Packed format"@)
    } else if i == 2 {
        (1u8, Some(2u8), "Binary Input - With flags"@)
    } else if i == 3 {
        (2u8, Some(0u8), "Binary Input Event - Default variation"@)
    } else if i == 4 {
        (2u8, Some(1u8), "Binary Input Event - Without time"@)
    } else if i == 5 {
        (2u8, Some(2u8), "Binary Input Event - With absolute time"@)
    } else if i == 6 {
        (2u8, Some(3u8), "Binary Input Event - With relative time"@)
    } else if i == 7 {
        (3u8, Some(0u8), "Double-bit Binary Input - Default variation"@)
    } else if i == 8 {
        (3u8, Some(1u8), "Double-bit Binary Input - Packed format"@)
    } else if i == 9 {
        (3u8, Some(2u8), "Double-bit Binary Input - With flags"@)
    } else if i == 10 {
        (4u8, Some(0u8), "Double-bit Binary Input Event - Default variation"@)
    } else if i == 11 {
        (4u8, Some(1u8), "Double-bit Binary Input Event - Without time"@)
    } else if i == 12 {
        (4u8, Some(2u8), "Double-bit Binary Input Event - With absolute time"@)
    } else if i == 13 {
        (4u8, Some(3u8), "Double-bit Binary Input Event - With relative time"@)
    } else if i == 14 {
        (10u8, Some(0u8), "Binary Output - Default variation"@)
    } else if i == 15 {
        (10u8, Some(1u8), "Binary Output - Packed format"@)
    } else if i == 16 {
        (10u8, Some(2u8), "Binary Output - With flags"@)
    } else if i == 17 {
        (11u8, Some(0u8), "Binary Output Event - Default variation"@)
    } else if i == 18 {
        (11u8, Some(1u8), "Binary Output Event - Without time"@)
    } else if i == 19 {
        (11u8, Some(2u8), "Binary Output Event - With time"@)
    } else if i == 20 {
        (12u8, Some(0u8), "Binary Output Command - Control Relay Output Block"@)
    } else if i == 21 {
        (12u8, Some(1u8), "Binary Output Command - Pattern Control Block"@)
    } else if i == 22 {
        (20u8, Some(0u8), "Counter - Default variation"@)
    } else if i == 23 {
        (20u8, Some(1u8), "Counter - 32-bit with flags"@)
    } else if i == 24 {
        (20u8, Some(2u8), "Counter - 16-bit with flags"@)
    } else if i == 25 {
        (20u8, Some(5u8), "Counter - 32-bit without flag"@)
    } else if i == 26 {
        (20u8, Some(6u8), "Counter - 16-bit without flag"@)
    } else if i == 27 {
        (21u8, Some(0u8), "Frozen Counter - Default variation"@)
    } else if i == 28 {
        (21u8, Some(1u8), "Frozen Counter - 32-bit with flags"@)
    } else if i == 29 {
        (21u8, Some(2u8), "Frozen Counter - 16-bit with flags"@)
    } else if i == 30 {
        (21u8, Some(5u8), "Frozen Counter - 32-bit with flags and time"@)
    } else if i == 31 {
        (21u8, Some(6u8), "Frozen Counter - 16-bit with flags and time"@)
    } else if i == 32 {
        (21u8, Some(9u8), "Frozen Counter - 32-bit without flag"@)
    } else if i == 33 {
        (21u8, Some(10u8), "Frozen Counter - 16-bit without flag"@)
    } else if i == 34 {
        (22u8, Some(0u8), "Counter Event - Default variation"@)
    } else if i == 35 {
        (22u8, Some(1u8), "Counter Event - 32-bit with flags"@)
    } else if i == 36 {
        (22u8, Some(2u8), "Counter Event - 16-bit with flags"@)
    } else if i == 37 {
        (22u8, Some(5u8), "Counter Event - 32-bit with flags and time"@)
    } else if i == 38 {
        (22u8, Some(6u8), "Counter Event - 16-bit with flags and time"@)
    } else if i == 39 {
        (23u8, Some(0u8), "Frozen Counter Event - Default variation"@)
    } else if i == 40 {
        (23u8, Some(1u8), "Frozen Counter Event - 32-bit with flags"@)
    } else if i == 41 {
        (23u8, Some(2u8), "Frozen Counter Event - 16-bit with flags"@)
    } else if i == 42 {
        (23u8, Some(5u8), "Frozen Counter Event - 32-bit with flags and time"@)
    } else if i == 43 {
        (23u8, Some(6u8), "Frozen Counter Event - 16-bit with flags and time"@)
    } else if i == 44 {
        (30u8, Some(0u8), "Analog Input - Default variation"@)
    } else if i == 45 {
        (30u8, Some(1u8), "Analog Input - 32-bit with flags"@)
    } else if i == 46 {
        (30u8, Some(2u8), "Analog Input - 16-bit with flags"@)
    } else if i == 47 {
        (30u8, Some(3u8), "Analog Input - 32-bit without flag"@)
    } else if i == 48 {
        (30u8, Some(4u8), "Analog Input - 16-bit without flag"@)
    } else if i == 49 {
        (30u8, Some(5u8), "Analog Input - Single-precision floating point with flags"@)
    } else if i == 50 {
        (30u8, Some(6u8), "Analog Input - Double-precision floating point with flags"@)
    } else if i == 51 {
        (32u8, Some(0u8), "Analog Input Event - Default variation"@)
    } else if i == 52 {
        (32u8, Some(1u8), "Analog Input Event - 32-bit without time"@)
    } else if i == 53 {
        (32u8, Some(2u8), "Analog Input Event - 16-bit without time"@)
    } else if i == 54 {
        (32u8, Some(3u8), "Analog Input Event - 32-bit with time"@)
    } else if i == 55 {
        (32u8, Some(4u8), "Analog Input Event - 16-bit with time"@)
    } else if i == 56 {
        (32u8, Some(5u8), "Analog Input Event - Single-precision floating point without time"@)
    } else if i == 57 {
        (32u8, Some(6u8), "Analog Input Event - Double-precision floating point without time"@)
    } else if i == 58 {
        (32u8, Some(7u8), "Analog Input Event - Single-precision floating point with time"@)
    } else if i == 59 {
        (32u8, Some(8u8), "Analog Input Event - Double-precision floating point with time"@)
    } else if i == 60 {
        (40u8, Some(0u8), "Analog Output Status - Default variation"@)
    } else if i == 61 {
        (40u8, Some(1u8), "Analog Output Status - 32-bit with flags"@)
    } else if i == 62 {
        (40u8, Some(2u8), "Analog Output Status - 16-bit with flags"@)
    } else if i == 63 {
        (40u8, Some(3u8), "Analog Output Status - Single-precision floating point with flags"@)
    } else if i == 64 {
        (40u8, Some(4u8), "Analog Output Status - Double-precision floating point with flags"@)
    } else if i == 65 {
        (41u8, Some(0u8), "Analog Output - Default variation"@)
    } else if i == 66 {
        (41u8, Some(1u8), "Analog Output - 32-bit"@)
    } else if i == 67 {
        (41u8, Some(2u8), "Analog Output - 16-bit"@)
    } else if i == 68 {
        (41u8, Some(3u8), "Analog Output - Single-precision floating point"@)
    } else if i == 69 {
        (41u8, Some(4u8), "Analog Output - Double-precision floating point"@)
    } else if i == 70 {
        (42u8, Some(0u8), "Analog Output Event - Default variation"@)
    } else if i == 71 {
        (42u8, Some(1u8), "Analog Output Event - 32-bit without time"@)
    } else if i == 72 {
        (42u8, Some(2u8), "Analog Output Event - 16-bit without time"@)
    } else if i == 73 {
        (42u8, Some(3u8), "Analog Output Event - 32-bit with time"@)
    } else if i == 74 {
        (42u8, Some(4u8), "Analog Output Event - 16-bit with time"@)
    } else if i == 75 {
        (42u8, Some(5u8), "Analog Output Event - Single-precision floating point without time"@)
    } else if i == 76 {
        (42u8, Some(6u8), "Analog Output Event - Double-precision floating point without time"@)
    } else if i == 77 {
        (42u8, Some(7u8), "Analog Output Event - Single-preicions floating point with time"@)
    } else if i == 78 {
        (42u8, Some(8u8), "Analog Output Event - Double-preicions floating point with time"@)
    } else if i == 79 {
        (50u8, Some(1u8), "Time and Date - Absolute time"@)
    } else if i == 80 {
        (50u8, Some(3u8), "Time and Date - Absolute time at last recorded time"@)
    } else if i == 81 {
        (50u8, Some(4u8), "Time and Date - Indexed absolute time and long interval"@)
    } else if i == 82 {
        (51u8, Some(1u8), "Time and date CTO - Absolute time, synchronized"@)
    } else if i == 83 {
        (51u8, Some(2u8), "Time and date CTO - Absolute time, unsynchronized"@)
    } else if i == 84 {
        (52u8, Some(1u8), "Time delay - Coarse"@)
    } else if i == 85 {
        (52u8, Some(2u8), "Time delay - Fine"@)
    } else if i == 86 {
        (60u8, Some(1u8), "Class objects - Class 0 data"@)
    } else if i == 87 {
        (60u8, Some(2u8), "Class objects - Class 1 data"@)
    } else if i == 88 {
        (60u8, Some(3u8), "Class objects - Class 2 data"@)
    } else if i == 89 {
        (60u8, Some(4u8), "Class objects - Class 3 data"@)
    } else if i == 90 {
        (80u8, Some(1u8), "Internal Indications - Packed format"@)
    } else if i == 91 {
        (110u8, None, "Octet String"@)
    } else {
        (111u8, None, "Octet String Event"@)
    }
}

/// The variants of the `variation` enum, in order: name, documentation, value.
pub open spec fn spec_variation_table() -> Seq<(Seq<char>, Seq<char>, int)> {
    Seq::new(
        variation_count() as nat,
        |i: int| (entry_name(spec_variation(i)), spec_variation(i).2, i),
    )
}

/// Orders the entries by group, then variation (an entry without one last).
pub open spec fn variation_key(e: (u8, Option<u8>, Seq<char>)) -> int {
    e.0 as int * 1000 + match e.1 {
        Some(v) => v as int,
        None => 999,
    }
}

proof fn lemma_digit_char(d: nat)
    requires
        d < 10,
    ensures
        digit_char(d) as int == 48 + d,
        is_digit(digit_char(d)),
{
}

/// The digits of `n`: at least one, two from 10 on.
proof fn lemma_decimal_digits(n: nat)
    ensures
        decimal(n).len() >= 1,
        n >= 10 ==> decimal(n).len() >= 2,
        forall|i: int| 0 <= i < decimal(n).len() ==> is_digit(#[trigger] decimal(n)[i]),
    decreases n,
{
    if n < 10 {
        lemma_digit_char(n);
    } else {
        lemma_decimal_digits(n / 10);
        lemma_digit_char(n % 10);
    }
}

/// The number that decimal digits stand for, most significant first.
pub open spec fn digits_value(s: Seq<char>) -> int
    decreases s.len(),
{
    if s.len() == 0 {
        0
    } else {
        digits_value(s.drop_last()) * 10 + (s.last() as int - 48)
    }
}

/// The digits in a variant's name read back as its number: `decimal(n)` is
/// decimal digits without a leading zero, and they stand for `n`.
pub proof fn lemma_decimal_reads_back(n: nat)
    ensures
        digits_value(decimal(n)) == n,
        forall|i: int| 0 <= i < decimal(n).len() ==> is_digit(#[trigger] decimal(n)[i]),
        decimal(n).len() == 1 || decimal(n)[0] != '0',
    decreases n,
{
    lemma_decimal_digits(n);
    if n < 10 {
        lemma_digit_char(n);
        assert(decimal(n).drop_last() =~= Seq::<char>::empty());
        assert(digits_value(Seq::<char>::empty()) == 0);
        assert(decimal(n).last() == digit_char(n));
    } else {
        lemma_decimal_reads_back(n / 10);
        lemma_decimal_digits(n / 10);
        lemma_digit_char(n % 10);
        assert(decimal(n).drop_last() =~= decimal(n / 10));
        assert(decimal(n)[0] == decimal(n / 10)[0]);
        if decimal(n / 10).len() == 1 {
            lemma_digit_char(n / 10);
        }
        assert(decimal(n).last() == digit_char(n % 10));
        assert(n == (n / 10) * 10 + n % 10);
    }
}

/// Different numbers have different digits.
proof fn lemma_decimal_injective(a: nat, b: nat)
    requires
        decimal(a) == decimal(b),
    ensures
        a == b,
    decreases a,
{
    lemma_decimal_digits(a);
    lemma_decimal_digits(b);
    if a < 10 && b < 10 {
        lemma_digit_char(a);
        lemma_digit_char(b);
        assert(decimal(a)[0] == digit_char(a));
        assert(decimal(b)[0] == digit_char(b));
    } else if a >= 10 && b >= 10 {
        assert(decimal(a).drop_last() == decimal(a / 10));
        assert(decimal(b).drop_last() == decimal(b / 10));
        lemma_decimal_injective(a / 10, b / 10);
        lemma_digit_char(a % 10);
        lemma_digit_char(b % 10);
        assert(decimal(a).last() == digit_char(a % 10));
        assert(decimal(b).last() == digit_char(b % 10));
        assert(decimal(a).last() == decimal(b).last());
    } else if a < 10 {
        assert(decimal(a).len() == 1);
    } else {
        assert(decimal(b).len() == 1);
    }
}

/// Splitting `group<digits><rest>`, where the rest is empty or starts with
/// `v`, at the end of the digits.
proof fn lemma_split_digits(d1: Seq<char>, r1: Seq<char>, d2: Seq<char>, r2: Seq<char>)
    requires
        group_prefix() + d1 + r1 == group_prefix() + d2 + r2,
        forall|i: int| 0 <= i < d1.len() ==> is_digit(#[trigger] d1[i]),
        forall|i: int| 0 <= i < d2.len() ==> is_digit(#[trigger] d2[i]),
        r1.len() == 0 || r1[0] == 'v',
        r2.len() == 0 || r2[0] == 'v',
    ensures
        d1 == d2,
        r1 == r2,
{
    let s = group_prefix() + d1 + r1;
    let t = group_prefix() + d2 + r2;
    if d1.len() < d2.len() {
        let k = 5 + d1.len();
        assert(is_digit(t[k as int])) by {
            assert(t[k as int] == d2[d1.len() as int]);
        }
        if r1.len() == 0 {
            assert(s.len() == k);
        } else {
            assert(s[k as int] == r1[0]);
        }
    } else if d2.len() < d1.len() {
        let k = 5 + d2.len();
        assert(is_digit(s[k as int])) by {
            assert(s[k as int] == d1[d2.len() as int]);
        }
        if r2.len() == 0 {
            assert(t.len() == k);
        } else {
            assert(t[k as int] == r2[0]);
        }
    }
    assert(d1 =~= s.subrange(5, 5 + d1.len() as int));
    assert(d2 =~= t.subrange(5, 5 + d2.len() as int));
    assert(r1 =~= s.skip(5 + d1.len() as int));
    assert(r2 =~= t.skip(5 + d2.len() as int));
}

/// Entries with the same name have the same group and variation.
proof fn lemma_entry_name_injective(e1: (u8, Option<u8>, Seq<char>), e2: (u8, Option<u8>, Seq<char>))
    requires
        entry_name(e1) == entry_name(e2),
    ensures
        e1.0 == e2.0,
        e1.1 == e2.1,
{
    let d1 = decimal(e1.0 as nat);
    let d2 = decimal(e2.0 as nat);
    lemma_decimal_digits(e1.0 as nat);
    lemma_decimal_digits(e2.0 as nat);
    let var = seq!['v', 'a', 'r'];
    let r1 = match e1.1 {
        Some(v) => var + decimal(v as nat),
        None => Seq::<char>::empty(),
    };
    let r2 = match e2.1 {
        Some(v) => var + decimal(v as nat),
        None => Seq::<char>::empty(),
    };
    assert(entry_name(e1) =~= group_prefix() + d1 + r1);
    assert(entry_name(e2) =~= group_prefix() + d2 + r2);
    lemma_split_digits(d1, r1, d2, r2);
    lemma_decimal_injective(e1.0 as nat, e2.0 as nat);
    match (e1.1, e2.1) {
        (Some(v1), Some(v2)) => {
            assert(decimal(v1 as nat) =~= r1.skip(3));
            assert(decimal(v2 as nat) =~= r2.skip(3));
            lemma_decimal_injective(v1 as nat, v2 as nat);
        },
        (Some(v1), None) => {
            assert(r1.len() >= 3);
        },
        (None, Some(v2)) => {
            assert(r2.len() >= 3);
        },
        (None, None) => {},
    }
}

/// Every entry's name is one that the generator accepts.
proof fn lemma_entry_name_accepted(e: (u8, Option<u8>, Seq<char>))
    ensures
        accepted_name(entry_name(e)),
{
    let s = entry_name(e);
    let d = decimal(e.0 as nat);
    lemma_decimal_digits(e.0 as nat);
    match e.1 {
        Some(v) => {
            let dv = decimal(v as nat);
            lemma_decimal_digits(v as nat);
            assert forall|i: int| 0 <= i < s.len() implies is_lower(s[i]) || is_digit(s[i]) by {
                if i >= 5 + d.len() + 3 {
                    assert(s[i] == dv[i - 5 - d.len() - 3]);
                } else if i >= 5 + d.len() {
                } else if i >= 5 {
                    assert(s[i] == d[i - 5]);
                }
            }
        },
        None => {
            assert forall|i: int| 0 <= i < s.len() implies is_lower(s[i]) || is_digit(s[i]) by {
                if i >= 5 {
                    assert(s[i] == d[i - 5]);
                }
            }
        },
    }
    assert(s[5] == d[0]);
    assert(is_digit(s[5]));
}

/// Neighbouring entries are in increasing order.
proof fn lemma_keys_adjacent(i: int)
    requires
        0 <= i < variation_count() - 1,
    ensures
        variation_key(spec_variation(i)) < variation_key(spec_variation(i + 1)),
{
}

/// The entries are in increasing order.
proof fn lemma_keys_sorted(j: int, k: int)
    requires
        0 <= j < k < variation_count(),
    ensures
        variation_key(spec_variation(j)) < variation_key(spec_variation(k)),
    decreases k - j,
{
    lemma_keys_adjacent(k - 1);
    if j + 1 < k {
        lemma_keys_sorted(j, k - 1);
    }
}

/// No two entries of the table share a name.
pub proof fn lemma_variation_names_distinct(j: int, k: int)
    requires
        0 <= j < k < variation_count(),
    ensures
        entry_name(spec_variation(j)) != entry_name(spec_variation(k)),
{
    lemma_keys_sorted(j, k);
    if entry_name(spec_variation(j)) == entry_name(spec_variation(k)) {
        lemma_entry_name_injective(spec_variation(j), spec_variation(k));
    }
}

/// Entries 0 to 15 of the table.
proof fn lemma_table_part_0()
    ensures
        spec_variation_table()[0] == (spec_gv(1u8, 0u8), "Binary Input - Default variation"@, 0int),
        spec_variation_table()[1] == (spec_gv(1u8, 1u8), "Binary Input - Packed format"@, 1int),
        spec_variation_table()[2] == (spec_gv(1u8, 2u8), "Binary Input - With flags"@, 2int),
        spec_variation_table()[3] == (spec_gv(2u8, 0u8), "Binary Input Event - Default variation"@, 3int),
        spec_variation_table()[4] == (spec_gv(2u8, 1u8), "Binary Input Event - Without time"@, 4int),
        spec_variation_table()[5] == (spec_gv(2u8, 2u8), "Binary Input Event - With absolute time"@, 5int),
        spec_variation_table()[6] == (spec_gv(2u8, 3u8), "Binary Input Event - With relative time"@, 6int),
        spec_variation_table()[7] == (spec_gv(3u8, 0u8), "Double-bit Binary Input - Default variation"@, 7int),
        spec_variation_table()[8] == (spec_gv(3u8, 1u8), "Double-bit Binary Input - Packed format"@, 8int),
        spec_variation_table()[9] == (spec_gv(3u8, 2u8), "Double-bit Binary Input - With flags"@, 9int),
        spec_variation_table()[10] == (spec_gv(4u8, 0u8), "Double-bit Binary Input Event - Default variation"@, 10int),
        spec_variation_table()[11] == (spec_gv(4u8, 1u8), "Double-bit Binary Input Event - Without time"@, 11int),
        spec_variation_table()[12] == (spec_gv(4u8, 2u8), "Double-bit Binary Input Event - With absolute time"@, 12int),
        spec_variation_table()[13] == (spec_gv(4u8, 3u8), "Double-bit Binary Input Event - With relative time"@, 13int),
        spec_variation_table()[14] == (spec_gv(10u8, 0u8), "Binary Output - Default variation"@, 14int),
        spec_variation_table()[15] == (spec_gv(10u8, 1u8), "Binary Output - Packed format"@, 15int),
{
}

/// Entries 16 to 31 of the table.
proof fn lemma_table_part_1()
    ensures
        spec_variation_table()[16] == (spec_gv(10u8, 2u8), "Binary Output - With flags"@, 16int),
        spec_variation_table()[17] == (spec_gv(11u8, 0u8), "Binary Output Event - Default variation"@, 17int),
        spec_variation_table()[18] == (spec_gv(11u8, 1u8), "Binary Output Event - Without time"@, 18int),
        spec_variation_table()[19] == (spec_gv(11u8, 2u8), "Binary Output Event - With time"@, 19int),
        spec_variation_table()[20] == (spec_gv(12u8, 0u8), "Binary Output Command - Control Relay Output Block"@, 20int),
        spec_variation_table()[21] == (spec_gv(12u8, 1u8), "Binary Output Command - Pattern Control Block"@, 21int),
        spec_variation_table()[22] == (spec_gv(20u8, 0u8), "Counter - Default variation"@, 22int),
        spec_variation_table()[23] == (spec_gv(20u8, 1u8), "Counter - 32-bit with flags"@, 23int),
        spec_variation_table()[24] == (spec_gv(20u8, 2u8), "Counter - 16-bit with flags"@, 24int),
        spec_variation_table()[25] == (spec_gv(20u8, 5u8), "Counter - 32-bit without flag"@, 25int),
        spec_variation_table()[26] == (spec_gv(20u8, 6u8), "Counter - 16-bit without flag"@, 26int),
        spec_variation_table()[27] == (spec_gv(21u8, 0u8), "Frozen Counter - Default variation"@, 27int),
        spec_variation_table()[28] == (spec_gv(21u8, 1u8), "Frozen Counter - 32-bit with flags"@, 28int),
        spec_variation_table()[29] == (spec_gv(21u8, 2u8), "Frozen Counter - 16-bit with flags"@, 29int),
        spec_variation_table()[30] == (spec_gv(21u8, 5u8), "Frozen Counter - 32-bit with flags and time"@, 30int),
        spec_variation_table()[31] == (spec_gv(21u8, 6u8), "Frozen Counter - 16-bit with flags and time"@, 31int),
{
}

/// Entries 32 to 47 of the table.
proof fn lemma_table_part_2()
    ensures
        spec_variation_table()[32] == (spec_gv(21u8, 9u8), "Frozen Counter - 32-bit without flag"@, 32int),
        spec_variation_table()[33] == (spec_gv(21u8, 10u8), "Frozen Counter - 16-bit without flag"@, 33int),
        spec_variation_table()[34] == (spec_gv(22u8, 0u8), "Counter Event - Default variation"@, 34int),
        spec_variation_table()[35] == (spec_gv(22u8, 1u8), "Counter Event - 32-bit with flags"@, 35int),
        spec_variation_table()[36] == (spec_gv(22u8, 2u8), "Counter Event - 16-bit with flags"@, 36int),
        spec_variation_table()[37] == (spec_gv(22u8, 5u8), "Counter Event - 32-bit with flags and time"@, 37int),
        spec_variation_table()[38] == (spec_gv(22u8, 6u8), "Counter Event - 16-bit with flags and time"@, 38int),
        spec_variation_table()[39] == (spec_gv(23u8, 0u8), "Frozen Counter Event - Default variation"@, 39int),
        spec_variation_table()[40] == (spec_gv(23u8, 1u8), "Frozen Counter Event - 32-bit with flags"@, 40int),
        spec_variation_table()[41] == (spec_gv(23u8, 2u8), "Frozen Counter Event - 16-bit with flags"@, 41int),
        spec_variation_table()[42] == (spec_gv(23u8, 5u8), "Frozen Counter Event - 32-bit with flags and time"@, 42int),
        spec_variation_table()[43] == (spec_gv(23u8, 6u8), "Frozen Counter Event - 16-bit with flags and time"@, 43int),
        spec_variation_table()[44] == (spec_gv(30u8, 0u8), "Analog Input - Default variation"@, 44int),
        spec_variation_table()[45] == (spec_gv(30u8, 1u8), "Analog Input - 32-bit with flags"@, 45int),
        spec_variation_table()[46] == (spec_gv(30u8, 2u8), "Analog Input - 16-bit with flags"@, 46int),
        spec_variation_table()[47] == (spec_gv(30u8, 3u8), "Analog Input - 32-bit without flag"@, 47int),
{
}

/// Entries 48 to 63 of the table.
proof fn lemma_table_part_3()
    ensures
        spec_variation_table()[48] == (spec_gv(30u8, 4u8), "Analog Input - 16-bit without flag"@, 48int),
        spec_variation_table()[49] == (spec_gv(30u8, 5u8), "Analog Input - Single-precision floating point with flags"@, 49int),
        spec_variation_table()[50] == (spec_gv(30u8, 6u8), "Analog Input - Double-precision floating point with flags"@, 50int),
        spec_variation_table()[51] == (spec_gv(32u8, 0u8), "Analog Input Event - Default variation"@, 51int),
        spec_variation_table()[52] == (spec_gv(32u8, 1u8), "Analog Input Event - 32-bit without time"@, 52int),
        spec_variation_table()[53] == (spec_gv(32u8, 2u8), "Analog Input Event - 16-bit without time"@, 53int),
        spec_variation_table()[54] == (spec_gv(32u8, 3u8), "Analog Input Event - 32-bit with time"@, 54int),
        spec_variation_table()[55] == (spec_gv(32u8, 4u8), "Analog Input Event - 16-bit with time"@, 55int),
        spec_variation_table()[56] == (spec_gv(32u8, 5u8), "Analog Input Event - Single-precision floating point without time"@, 56int),
        spec_variation_table()[57] == (spec_gv(32u8, 6u8), "Analog Input Event - Double-precision floating point without time"@, 57int),
        spec_variation_table()[58] == (spec_gv(32u8, 7u8), "Analog Input Event - Single-precision floating point with time"@, 58int),
        spec_variation_table()[59] == (spec_gv(32u8, 8u8), "Analog Input Event - Double-precision floating point with time"@, 59int),
        spec_variation_table()[60] == (spec_gv(40u8, 0u8), "Analog Output Status - Default variation"@, 60int),
        spec_variation_table()[61] == (spec_gv(40u8, 1u8), "Analog Output Status - 32-bit with flags"@, 61int),
        spec_variation_table()[62] == (spec_gv(40u8, 2u8), "Analog Output Status - 16-bit with flags"@, 62int),
        spec_variation_table()[63] == (spec_gv(40u8, 3u8), "Analog Output Status - Single-precision floating point with flags"@, 63int),
{
}

/// Entries 64 to 79 of the table.
proof fn lemma_table_part_4()
    ensures
        spec_variation_table()[64] == (spec_gv(40u8, 4u8), "Analog Output Status - Double-precision floating point with flags"@, 64int),
        spec_variation_table()[65] == (spec_gv(41u8, 0u8), "Analog Output - Default variation"@, 65int),
        spec_variation_table()[66] == (spec_gv(41u8, 1u8), "Analog Output - 32-bit"@, 66int),
        spec_variation_table()[67] == (spec_gv(41u8, 2u8), "Analog Output - 16-bit"@, 67int),
        spec_variation_table()[68] == (spec_gv(41u8, 3u8), "Analog Output - Single-precision floating point"@, 68int),
        spec_variation_table()[69] == (spec_gv(41u8, 4u8), "Analog Output - Double-precision floating point"@, 69int),
        spec_variation_table()[70] == (spec_gv(42u8, 0u8), "Analog Output Event - Default variation"@, 70int),
        spec_variation_table()[71] == (spec_gv(42u8, 1u8), "Analog Output Event - 32-bit without time"@, 71int),
        spec_variation_table()[72] == (spec_gv(42u8, 2u8), "Analog Output Event - 16-bit without time"@, 72int),
        spec_variation_table()[73] == (spec_gv(42u8, 3u8), "Analog Output Event - 32-bit with time"@, 73int),
        spec_variation_table()[74] == (spec_gv(42u8, 4u8), "Analog Output Event - 16-bit with time"@, 74int),
        spec_variation_table()[75] == (spec_gv(42u8, 5u8), "Analog Output Event - Single-precision floating point without time"@, 75int),
        spec_variation_table()[76] == (spec_gv(42u8, 6u8), "Analog Output Event - Double-precision floating point without time"@, 76int),
        spec_variation_table()[77] == (spec_gv(42u8, 7u8), "Analog Output Event - Single-preicions floating point with time"@, 77int),
        spec_variation_table()[78] == (spec_gv(42u8, 8u8), "Analog Output Event - Double-preicions floating point with time"@, 78int),
        spec_variation_table()[79] == (spec_gv(50u8, 1u8), "Time and Date - Absolute time"@, 79int),
{
}

/// Entries 80 to 92 of the table.
proof fn lemma_table_part_5()
    ensures
        spec_variation_table()[80] == (spec_gv(50u8, 3u8), "Time and Date - Absolute time at last recorded time"@, 80int),
        spec_variation_table()[81] == (spec_gv(50u8, 4u8), "Time and Date - Indexed absolute time and long interval"@, 81int),
        spec_variation_table()[82] == (spec_gv(51u8, 1u8), "Time and date CTO - Absolute time, synchronized"@, 82int),
        spec_variation_table()[83] == (spec_gv(51u8, 2u8), "Time and date CTO - Absolute time, unsynchronized"@, 83int),
        spec_variation_table()[84] == (spec_gv(52u8, 1u8), "Time delay - Coarse"@, 84int),
        spec_variation_table()[85] == (spec_gv(52u8, 2u8), "Time delay - Fine"@, 85int),
        spec_variation_table()[86] == (spec_gv(60u8, 1u8), "Class objects - Class 0 data"@, 86int),
        spec_variation_table()[87] == (spec_gv(60u8, 2u8), "Class objects - Class 1 data"@, 87int),
        spec_variation_table()[88] == (spec_gv(60u8, 3u8), "Class objects - Class 2 data"@, 88int),
        spec_variation_table()[89] == (spec_gv(60u8, 4u8), "Class objects - Class 3 data"@, 89int),
        spec_variation_table()[90] == (spec_gv(80u8, 1u8), "Internal Indications - Packed format"@, 90int),
        spec_variation_table()[91] == (spec_group_name(110u8), "Octet String"@, 91int),
        spec_variation_table()[92] == (spec_group_name(111u8), "Octet String Event"@, 92int),
{
}

/// The variants of the `variation` enum, one by one: the supported groups and
/// variations with the documentation of each, in this order and no others.
pub proof fn lemma_variation_table_entries()
    ensures
        spec_variation_table().len() == 93,
        spec_variation_table()[0] == (spec_gv(1u8, 0u8), "Binary Input - Default variation"@, 0int),
        spec_variation_table()[1] == (spec_gv(1u8, 1u8), "Binary Input - Packed format"@, 1int),
        spec_variation_table()[2] == (spec_gv(1u8, 2u8), "Binary Input - With flags"@, 2int),
        spec_variation_table()[3] == (spec_gv(2u8, 0u8), "Binary Input Event - Default variation"@, 3int),
        spec_variation_table()[4] == (spec_gv(2u8, 1u8), "Binary Input Event - Without time"@, 4int),
        spec_variation_table()[5] == (spec_gv(2u8, 2u8), "Binary Input Event - With absolute time"@, 5int),
        spec_variation_table()[6] == (spec_gv(2u8, 3u8), "Binary Input Event - With relative time"@, 6int),
        spec_variation_table()[7] == (spec_gv(3u8, 0u8), "Double-bit Binary Input - Default variation"@, 7int),
        spec_variation_table()[8] == (spec_gv(3u8, 1u8), "Double-bit Binary Input - Packed format"@, 8int),
        spec_variation_table()[9] == (spec_gv(3u8, 2u8), "Double-bit Binary Input - With flags"@, 9int),
        spec_variation_table()[10] == (spec_gv(4u8, 0u8), "Double-bit Binary Input Event - Default variation"@, 10int),
        spec_variation_table()[11] == (spec_gv(4u8, 1u8), "Double-bit Binary Input Event - Without time"@, 11int),
        spec_variation_table()[12] == (spec_gv(4u8, 2u8), "Double-bit Binary Input Event - With absolute time"@, 12int),
        spec_variation_table()[13] == (spec_gv(4u8, 3u8), "Double-bit Binary Input Event - With relative time"@, 13int),
        spec_variation_table()[14] == (spec_gv(10u8, 0u8), "Binary Output - Default variation"@, 14int),
        spec_variation_table()[15] == (spec_gv(10u8, 1u8), "Binary Output - Packed format"@, 15int),
        spec_variation_table()[16] == (spec_gv(10u8, 2u8), "Binary Output - With flags"@, 16int),
        spec_variation_table()[17] == (spec_gv(11u8, 0u8), "Binary Output Event - Default variation"@, 17int),
        spec_variation_table()[18] == (spec_gv(11u8, 1u8), "Binary Output Event - Without time"@, 18int),
        spec_variation_table()[19] == (spec_gv(11u8, 2u8), "Binary Output Event - With time"@, 19int),
        spec_variation_table()[20] == (spec_gv(12u8, 0u8), "Binary Output Command - Control Relay Output Block"@, 20int),
        spec_variation_table()[21] == (spec_gv(12u8, 1u8), "Binary Output Command - Pattern Control Block"@, 21int),
        spec_variation_table()[22] == (spec_gv(20u8, 0u8), "Counter - Default variation"@, 22int),
        spec_variation_table()[23] == (spec_gv(20u8, 1u8), "Counter - 32-bit with flags"@, 23int),
        spec_variation_table()[24] == (spec_gv(20u8, 2u8), "Counter - 16-bit with flags"@, 24int),
        spec_variation_table()[25] == (spec_gv(20u8, 5u8), "Counter - 32-bit without flag"@, 25int),
        spec_variation_table()[26] == (spec_gv(20u8, 6u8), "Counter - 16-bit without flag"@, 26int),
        spec_variation_table()[27] == (spec_gv(21u8, 0u8), "Frozen Counter - Default variation"@, 27int),
        spec_variation_table()[28] == (spec_gv(21u8, 1u8), "Frozen Counter - 32-bit with flags"@, 28int),
        spec_variation_table()[29] == (spec_gv(21u8, 2u8), "Frozen Counter - 16-bit with flags"@, 29int),
        spec_variation_table()[30] == (spec_gv(21u8, 5u8), "Frozen Counter - 32-bit with flags and time"@, 30int),
        spec_variation_table()[31] == (spec_gv(21u8, 6u8), "Frozen Counter - 16-bit with flags and time"@, 31int),
        spec_variation_table()[32] == (spec_gv(21u8, 9u8), "Frozen Counter - 32-bit without flag"@, 32int),
        spec_variation_table()[33] == (spec_gv(21u8, 10u8), "Frozen Counter - 16-bit without flag"@, 33int),
        spec_variation_table()[34] == (spec_gv(22u8, 0u8), "Counter Event - Default variation"@, 34int),
        spec_variation_table()[35] == (spec_gv(22u8, 1u8), "Counter Event - 32-bit with flags"@, 35int),
        spec_variation_table()[36] == (spec_gv(22u8, 2u8), "Counter Event - 16-bit with flags"@, 36int),
        spec_variation_table()[37] == (spec_gv(22u8, 5u8), "Counter Event - 32-bit with flags and time"@, 37int),
        spec_variation_table()[38] == (spec_gv(22u8, 6u8), "Counter Event - 16-bit with flags and time"@, 38int),
        spec_variation_table()[39] == (spec_gv(23u8, 0u8), "Frozen Counter Event - Default variation"@, 39int),
        spec_variation_table()[40] == (spec_gv(23u8, 1u8), "Frozen Counter Event - 32-bit with flags"@, 40int),
        spec_variation_table()[41] == (spec_gv(23u8, 2u8), "Frozen Counter Event - 16-bit with flags"@, 41int),
        spec_variation_table()[42] == (spec_gv(23u8, 5u8), "Frozen Counter Event - 32-bit with flags and time"@, 42int),
        spec_variation_table()[43] == (spec_gv(23u8, 6u8), "Frozen Counter Event - 16-bit with flags and time"@, 43int),
        spec_variation_table()[44] == (spec_gv(30u8, 0u8), "Analog Input - Default variation"@, 44int),
        spec_variation_table()[45] == (spec_gv(30u8, 1u8), "Analog Input - 32-bit with flags"@, 45int),
        spec_variation_table()[46] == (spec_gv(30u8, 2u8), "Analog Input - 16-bit with flags"@, 46int),
        spec_variation_table()[47] == (spec_gv(30u8, 3u8), "Analog Input - 32-bit without flag"@, 47int),
        spec_variation_table()[48] == (spec_gv(30u8, 4u8), "Analog Input - 16-bit without flag"@, 48int),
        spec_variation_table()[49] == (spec_gv(30u8, 5u8), "Analog Input - Single-precision floating point with flags"@, 49int),
        spec_variation_table()[50] == (spec_gv(30u8, 6u8), "Analog Input - Double-precision floating point with flags"@, 50int),
        spec_variation_table()[51] == (spec_gv(32u8, 0u8), "Analog Input Event - Default variation"@, 51int),
        spec_variation_table()[52] == (spec_gv(32u8, 1u8), "Analog Input Event - 32-bit without time"@, 52int),
        spec_variation_table()[53] == (spec_gv(32u8, 2u8), "Analog Input Event - 16-bit without time"@, 53int),
        spec_variation_table()[54] == (spec_gv(32u8, 3u8), "Analog Input Event - 32-bit with time"@, 54int),
        spec_variation_table()[55] == (spec_gv(32u8, 4u8), "Analog Input Event - 16-bit with time"@, 55int),
        spec_variation_table()[56] == (spec_gv(32u8, 5u8), "Analog Input Event - Single-precision floating point without time"@, 56int),
        spec_variation_table()[57] == (spec_gv(32u8, 6u8), "Analog Input Event - Double-precision floating point without time"@, 57int),
        spec_variation_table()[58] == (spec_gv(32u8, 7u8), "Analog Input Event - Single-precision floating point with time"@, 58int),
        spec_variation_table()[59] == (spec_gv(32u8, 8u8), "Analog Input Event - Double-precision floating point with time"@, 59int),
        spec_variation_table()[60] == (spec_gv(40u8, 0u8), "Analog Output Status - Default variation"@, 60int),
        spec_variation_table()[61] == (spec_gv(40u8, 1u8), "Analog Output Status - 32-bit with flags"@, 61int),
        spec_variation_table()[62] == (spec_gv(40u8, 2u8), "Analog Output Status - 16-bit with flags"@, 62int),
        spec_variation_table()[63] == (spec_gv(40u8, 3u8), "Analog Output Status - Single-precision floating point with flags"@, 63int),
        spec_variation_table()[64] == (spec_gv(40u8, 4u8), "Analog Output Status - Double-precision floating point with flags"@, 64int),
        spec_variation_table()[65] == (spec_gv(41u8, 0u8), "Analog Output - Default variation"@, 65int),
        spec_variation_table()[66] == (spec_gv(41u8, 1u8), "Analog Output - 32-bit"@, 66int),
        spec_variation_table()[67] == (spec_gv(41u8, 2u8), "Analog Output - 16-bit"@, 67int),
        spec_variation_table()[68] == (spec_gv(41u8, 3u8), "Analog Output - Single-precision floating point"@, 68int),
        spec_variation_table()[69] == (spec_gv(41u8, 4u8), "Analog Output - Double-precision floating point"@, 69int),
        spec_variation_table()[70] == (spec_gv(42u8, 0u8), "Analog Output Event - Default variation"@, 70int),
        spec_variation_table()[71] == (spec_gv(42u8, 1u8), "Analog Output Event - 32-bit without time"@, 71int),
        spec_variation_table()[72] == (spec_gv(42u8, 2u8), "Analog Output Event - 16-bit without time"@, 72int),
        spec_variation_table()[73] == (spec_gv(42u8, 3u8), "Analog Output Event - 32-bit with time"@, 73int),
        spec_variation_table()[74] == (spec_gv(42u8, 4u8), "Analog Output Event - 16-bit with time"@, 74int),
        spec_variation_table()[75] == (spec_gv(42u8, 5u8), "Analog Output Event - Single-precision floating point without time"@, 75int),
        spec_variation_table()[76] == (spec_gv(42u8, 6u8), "Analog Output Event - Double-precision floating point without time"@, 76int),
        spec_variation_table()[77] == (spec_gv(42u8, 7u8), "Analog Output Event - Single-preicions floating point with time"@, 77int),
        spec_variation_table()[78] == (spec_gv(42u8, 8u8), "Analog Output Event - Double-preicions floating point with time"@, 78int),
        spec_variation_table()[79] == (spec_gv(50u8, 1u8), "Time and Date - Absolute time"@, 79int),
        spec_variation_table()[80] == (spec_gv(50u8, 3u8), "Time and Date - Absolute time at last recorded time"@, 80int),
        spec_variation_table()[81] == (spec_gv(50u8, 4u8), "Time and Date - Indexed absolute time and long interval"@, 81int),
        spec_variation_table()[82] == (spec_gv(51u8, 1u8), "Time and date CTO - Absolute time, synchronized"@, 82int),
        spec_variation_table()[83] == (spec_gv(51u8, 2u8), "Time and date CTO - Absolute time, unsynchronized"@, 83int),
        spec_variation_table()[84] == (spec_gv(52u8, 1u8), "Time delay - Coarse"@, 84int),
        spec_variation_table()[85] == (spec_gv(52u8, 2u8), "Time delay - Fine"@, 85int),
        spec_variation_table()[86] == (spec_gv(60u8, 1u8), "Class objects - Class 0 data"@, 86int),
        spec_variation_table()[87] == (spec_gv(60u8, 2u8), "Class objects - Class 1 data"@, 87int),
        spec_variation_table()[88] == (spec_gv(60u8, 3u8), "Class objects - Class 2 data"@, 88int),
        spec_variation_table()[89] == (spec_gv(60u8, 4u8), "Class objects - Class 3 data"@, 89int),
        spec_variation_table()[90] == (spec_gv(80u8, 1u8), "Internal Indications - Packed format"@, 90int),
        spec_variation_table()[91] == (spec_group_name(110u8), "Octet String"@, 91int),
        spec_variation_table()[92] == (spec_group_name(111u8), "Octet String Event"@, 92int),
{
    lemma_table_part_0();
    lemma_table_part_1();
    lemma_table_part_2();
    lemma_table_part_3();
    lemma_table_part_4();
    lemma_table_part_5();
}

fn digit(d: u8) -> (s: &'static str)
    requires
        d < 10,
    ensures
        s@ == seq![digit_char(d as nat)],
{
    match d {
        0 => {
            proof {
                reveal_strlit("0");
            }
            "0"
        },
        1 => {
            proof {
                reveal_strlit("1");
            }
            "1"
        },
        2 => {
            proof {
                reveal_strlit("2");
            }
            "2"
        },
        3 => {
            proof {
                reveal_strlit("3");
            }
            "3"
        },
        4 => {
            proof {
                reveal_strlit("4");
            }
            "4"
        },
        5 => {
            proof {
                reveal_strlit("5");
            }
            "5"
        },
        6 => {
            proof {
                reveal_strlit("6");
            }
            "6"
        },
        7 => {
            proof {
                reveal_strlit("7");
            }
            "7"
        },
        8 => {
            proof {
                reveal_strlit("8");
            }
            "8"
        },
        _ => {
            proof {
                reveal_strlit("9");
            }
            "9"
        },
    }
}

fn append_decimal(s: &mut String, n: u8)
    ensures
        final(s)@ == old(s)@ + decimal(n as nat),
{
    proof {
        reveal_with_fuel(decimal, 3);
    }
    if n >= 100 {
        s.append(digit(n / 100));
    }
    if n >= 10 {
        s.append(digit((n / 10) % 10));
    }
    s.append(digit(n % 10));
    proof {
        let n = n as nat;
        if n >= 100 {
            assert(n / 10 >= 10 && (n / 10) / 10 == n / 100 && (n / 10) % 10 < 10);
            assert(decimal(n) =~= seq![
                digit_char(n / 100),
                digit_char((n / 10) % 10),
                digit_char(n % 10),
            ]);
        } else if n >= 10 {
            assert(decimal(n) =~= seq![digit_char(n / 10), digit_char(n % 10)]);
        }
        assert(final(s)@ =~= old(s)@ + decimal(n));
    }
}

/// The name `group<g>`.
pub fn group_name(group: u8) -> (s: String)
    ensures
        s@ == spec_group_name(group),
{
    let mut s = String::new();
    proof {
        reveal_strlit("group");
    }
    s.append("group");
    append_decimal(&mut s, group);
    assert(s@ =~= spec_group_name(group));
    s
}

/// The name `group<g>var<v>`.
pub fn gv(group: u8, variation: u8) -> (s: String)
    ensures
        s@ == spec_gv(group, variation),
{
    let mut s = group_name(group);
    proof {
        reveal_strlit("var");
    }
    s.append("var");
    append_decimal(&mut s, variation);
    assert(s@ =~= spec_gv(group, variation));
    s
}


/// The name of a table entry.
fn entry_name_string(group: u8, variation: Option<u8>) -> (s: String)
    ensures
        s@ == entry_name((group, variation, Seq::<char>::empty())),
{
    match variation {
        Some(v) => gv(group, v),
        None => group_name(group),
    }
}

/// Entry `i` of the table. No documentation holds a `{`.
fn variation_entry(i: usize) -> (r: (u8, Option<u8>, &'static str))
    requires
        i < variation_count(),
    ensures
        r.0 == spec_variation(i as int).0,
        r.1 == spec_variation(i as int).1,
        r.2@ == spec_variation(i as int).2,
        !r.2@.contains('{'),
{
    match i {
        0 => {
            proof {
                reveal_strlit("Binary Input - Default variation");
            }
            (1, Some(0u8), "Binary Input - Default variation")
        },
        1 => {
            proof {
                reveal_strlit("Binary Input - Packed format");
            }
            (1, Some(1u8), "Binary Input - Packed format")
        },
        2 => {
            proof {
                reveal_strlit("Binary Input - With flags");
            }
            (1, Some(2u8), "Binary Input - With flags")
        },
        3 => {
            proof {
                reveal_strlit("Binary Input Event - Default variation");
            }
            (2, Some(0u8), "Binary Input Event - Default variation")
        },
        4 => {
            proof {
                reveal_strlit("Binary Input Event - Without time");
            }
            (2, Some(1u8), "Binary Input Event - Without time")
        },
        5 => {
            proof {
                reveal_strlit("Binary Input Event - With absolute time");
            }
            (2, Some(2u8), "Binary Input Event - With absolute time")
        },
        6 => {
            proof {
                reveal_strlit("Binary Input Event - With relative time");
            }
            (2, Some(3u8), "Binary Input Event - With relative time")
        },
        7 => {
            proof {
                reveal_strlit("Double-bit Binary Input - Default variation");
            }
            (3, Some(0u8), "Double-bit Binary Input - Default variation")
        },
        8 => {
            proof {
                reveal_strlit("Double-bit Binary Input - Packed format");
            }
            (3, Some(1u8), "Double-bit Binary Input - Packed format")
        },
        9 => {
            proof {
                reveal_strlit("Double-bit Binary Input - With flags");
            }
            (3, Some(2u8), "Double-bit Binary Input - With flags")
        },
        10 => {
            proof {
                reveal_strlit("Double-bit Binary Input Event - Default variation");
            }
            (4, Some(0u8), "Double-bit Binary Input Event - Default variation")
        },
        11 => {
            proof {
                reveal_strlit("Double-bit Binary Input Event - Without time");
            }
            (4, Some(1u8), "Double-bit Binary Input Event - Without time")
        },
        12 => {
            proof {
                reveal_strlit("Double-bit Binary Input Event - With absolute time");
            }
            (4, Some(2u8), "Double-bit Binary Input Event - With absolute time")
        },
        13 => {
            proof {
                reveal_strlit("Double-bit Binary Input Event - With relative time");
            }
            (4, Some(3u8), "Double-bit Binary Input Event - With relative time")
        },
        14 => {
            proof {
                reveal_strlit("Binary Output - Default variation");
            }
            (10, Some(0u8), "Binary Output - Default variation")
        },
        15 => {
            proof {
                reveal_strlit("Binary Output - Packed format");
            }
            (10, Some(1u8), "Binary Output - Packed format")
        },
        16 => {
            proof {
                reveal_strlit("Binary Output - With flags");
            }
            (10, Some(2u8), "Binary Output - With flags")
        },
        17 => {
            proof {
                reveal_strlit("Binary Output Event - Default variation");
            }
            (11, Some(0u8), "Binary Output Event - Default variation")
        },
        18 => {
            proof {
                reveal_strlit("Binary Output Event - Without time");
            }
            (11, Some(1u8), "Binary Output Event - Without time")
        },
        19 => {
            proof {
                reveal_strlit("Binary Output Event - With time");
            }
            (11, Some(2u8), "Binary Output Event - With time")
        },
        20 => {
            proof {
                reveal_strlit("Binary Output Command - Control Relay Output Block");
            }
            (12, Some(0u8), "Binary Output Command - Control Relay Output Block")
        },
        21 => {
            proof {
                reveal_strlit("Binary Output Command - Pattern Control Block");
            }
            (12, Some(1u8), "Binary Output Command - Pattern Control Block")
        },
        22 => {
            proof {
                reveal_strlit("Counter - Default variation");
            }
            (20, Some(0u8), "Counter - Default variation")
        },
        23 => {
            proof {
                reveal_strlit("Counter - 32-bit with flags");
            }
            (20, Some(1u8), "Counter - 32-bit with flags")
        },
        24 => {
            proof {
                reveal_strlit("Counter - 16-bit with flags");
            }
            (20, Some(2u8), "Counter - 16-bit with flags")
        },
        25 => {
            proof {
                reveal_strlit("Counter - 32-bit without flag");
            }
            (20, Some(5u8), "Counter - 32-bit without flag")
        },
        26 => {
            proof {
                reveal_strlit("Counter - 16-bit without flag");
            }
            (20, Some(6u8), "Counter - 16-bit without flag")
        },
        27 => {
            proof {
                reveal_strlit("Frozen Counter - Default variation");
            }
            (21, Some(0u8), "Frozen Counter - Default variation")
        },
        28 => {
            proof {
                reveal_strlit("Frozen Counter - 32-bit with flags");
            }
            (21, Some(1u8), "Frozen Counter - 32-bit with flags")
        },
        29 => {
            proof {
                reveal_strlit("Frozen Counter - 16-bit with flags");
            }
            (21, Some(2u8), "Frozen Counter - 16-bit with flags")
        },
        30 => {
            proof {
                reveal_strlit("Frozen Counter - 32-bit with flags and time");
            }
            (21, Some(5u8), "Frozen Counter - 32-bit with flags and time")
        },
        31 => {
            proof {
                reveal_strlit("Frozen Counter - 16-bit with flags and time");
            }
            (21, Some(6u8), "Frozen Counter - 16-bit with flags and time")
        },
        32 => {
            proof {
                reveal_strlit("Frozen Counter - 32-bit without flag");
            }
            (21, Some(9u8), "Frozen Counter - 32-bit without flag")
        },
        33 => {
            proof {
                reveal_strlit("Frozen Counter - 16-bit without flag");
            }
            (21, Some(10u8), "Frozen Counter - 16-bit without flag")
        },
        34 => {
            proof {
                reveal_strlit("Counter Event - Default variation");
            }
            (22, Some(0u8), "Counter Event - Default variation")
        },
        35 => {
            proof {
                reveal_strlit("Counter Event - 32-bit with flags");
            }
            (22, Some(1u8), "Counter Event - 32-bit with flags")
        },
        36 => {
            proof {
                reveal_strlit("Counter Event - 16-bit with flags");
            }
            (22, Some(2u8), "Counter Event - 16-bit with flags")
        },
        37 => {
            proof {
                reveal_strlit("Counter Event - 32-bit with flags and time");
            }
            (22, Some(5u8), "Counter Event - 32-bit with flags and time")
        },
        38 => {
            proof {
                reveal_strlit("Counter Event - 16-bit with flags and time");
            }
            (22, Some(6u8), "Counter Event - 16-bit with flags and time")
        },
        39 => {
            proof {
                reveal_strlit("Frozen Counter Event - Default variation");
            }
            (23, Some(0u8), "Frozen Counter Event - Default variation")
        },
        40 => {
            proof {
                reveal_strlit("Frozen Counter Event - 32-bit with flags");
            }
            (23, Some(1u8), "Frozen Counter Event - 32-bit with flags")
        },
        41 => {
            proof {
                reveal_strlit("Frozen Counter Event - 16-bit with flags");
            }
            (23, Some(2u8), "Frozen Counter Event - 16-bit with flags")
        },
        42 => {
            proof {
                reveal_strlit("Frozen Counter Event - 32-bit with flags and time");
            }
            (23, Some(5u8), "Frozen Counter Event - 32-bit with flags and time")
        },
        43 => {
            proof {
                reveal_strlit("Frozen Counter Event - 16-bit with flags and time");
            }
            (23, Some(6u8), "Frozen Counter Event - 16-bit with flags and time")
        },
        44 => {
            proof {
                reveal_strlit("Analog Input - Default variation");
            }
            (30, Some(0u8), "Analog Input - Default variation")
        },
        45 => {
            proof {
                reveal_strlit("Analog Input - 32-bit with flags");
            }
            (30, Some(1u8), "Analog Input - 32-bit with flags")
        },
        46 => {
            proof {
                reveal_strlit("Analog Input - 16-bit with flags");
            }
            (30, Some(2u8), "Analog Input - 16-bit with flags")
        },
        47 => {
            proof {
                reveal_strlit("Analog Input - 32-bit without flag");
            }
            (30, Some(3u8), "Analog Input - 32-bit without flag")
        },
        48 => {
            proof {
                reveal_strlit("Analog Input - 16-bit without flag");
            }
            (30, Some(4u8), "Analog Input - 16-bit without flag")
        },
        49 => {
            proof {
                reveal_strlit("Analog Input - Single-precision floating point with flags");
            }
            (30, Some(5u8), "Analog Input - Single-precision floating point with flags")
        },
        50 => {
            proof {
                reveal_strlit("Analog Input - Double-precision floating point with flags");
            }
            (30, Some(6u8), "Analog Input - Double-precision floating point with flags")
        },
        51 => {
            proof {
                reveal_strlit("Analog Input Event - Default variation");
            }
            (32, Some(0u8), "Analog Input Event - Default variation")
        },
        52 => {
            proof {
                reveal_strlit("Analog Input Event - 32-bit without time");
            }
            (32, Some(1u8), "Analog Input Event - 32-bit without time")
        },
        53 => {
            proof {
                reveal_strlit("Analog Input Event - 16-bit without time");
            }
            (32, Some(2u8), "Analog Input Event - 16-bit without time")
        },
        54 => {
            proof {
                reveal_strlit("Analog Input Event - 32-bit with time");
            }
            (32, Some(3u8), "Analog Input Event - 32-bit with time")
        },
        55 => {
            proof {
                reveal_strlit("Analog Input Event - 16-bit with time");
            }
            (32, Some(4u8), "Analog Input Event - 16-bit with time")
        },
        56 => {
            proof {
                reveal_strlit("Analog Input Event - Single-precision floating point without time");
            }
            (32, Some(5u8), "Analog Input Event - Single-precision floating point without time")
        },
        57 => {
            proof {
                reveal_strlit("Analog Input Event - Double-precision floating point without time");
            }
            (32, Some(6u8), "Analog Input Event - Double-precision floating point without time")
        },
        58 => {
            proof {
                reveal_strlit("Analog Input Event - Single-precision floating point with time");
            }
            (32, Some(7u8), "Analog Input Event - Single-precision floating point with time")
        },
        59 => {
            proof {
                reveal_strlit("Analog Input Event - Double-precision floating point with time");
            }
            (32, Some(8u8), "Analog Input Event - Double-precision floating point with time")
        },
        60 => {
            proof {
                reveal_strlit("Analog Output Status - Default variation");
            }
            (40, Some(0u8), "Analog Output Status - Default variation")
        },
        61 => {
            proof {
                reveal_strlit("Analog Output Status - 32-bit with flags");
            }
            (40, Some(1u8), "Analog Output Status - 32-bit with flags")
        },
        62 => {
            proof {
                reveal_strlit("Analog Output Status - 16-bit with flags");
            }
            (40, Some(2u8), "Analog Output Status - 16-bit with flags")
        },
        63 => {
            proof {
                reveal_strlit("Analog Output Status - Single-precision floating point with flags");
            }
            (40, Some(3u8), "Analog Output Status - Single-precision floating point with flags")
        },
        64 => {
            proof {
                reveal_strlit("Analog Output Status - Double-precision floating point with flags");
            }
            (40, Some(4u8), "Analog Output Status - Double-precision floating point with flags")
        },
        65 => {
            proof {
                reveal_strlit("Analog Output - Default variation");
            }
            (41, Some(0u8), "Analog Output - Default variation")
        },
        66 => {
            proof {
                reveal_strlit("Analog Output - 32-bit");
            }
            (41, Some(1u8), "Analog Output - 32-bit")
        },
        67 => {
            proof {
                reveal_strlit("Analog Output - 16-bit");
            }
            (41, Some(2u8), "Analog Output - 16-bit")
        },
        68 => {
            proof {
                reveal_strlit("Analog Output - Single-precision floating point");
            }
            (41, Some(3u8), "Analog Output - Single-precision floating point")
        },
        69 => {
            proof {
                reveal_strlit("Analog Output - Double-precision floating point");
            }
            (41, Some(4u8), "Analog Output - Double-precision floating point")
        },
        70 => {
            proof {
                reveal_strlit("Analog Output Event - Default variation");
            }
            (42, Some(0u8), "Analog Output Event - Default variation")
        },
        71 => {
            proof {
                reveal_strlit("Analog Output Event - 32-bit without time");
            }
            (42, Some(1u8), "Analog Output Event - 32-bit without time")
        },
        72 => {
            proof {
                reveal_strlit("Analog Output Event - 16-bit without time");
            }
            (42, Some(2u8), "Analog Output Event - 16-bit without time")
        },
        73 => {
            proof {
                reveal_strlit("Analog Output Event - 32-bit with time");
            }
            (42, Some(3u8), "Analog Output Event - 32-bit with time")
        },
        74 => {
            proof {
                reveal_strlit("Analog Output Event - 16-bit with time");
            }
            (42, Some(4u8), "Analog Output Event - 16-bit with time")
        },
        75 => {
            proof {
                reveal_strlit("Analog Output Event - Single-precision floating point without time");
            }
            (42, Some(5u8), "Analog Output Event - Single-precision floating point without time")
        },
        76 => {
            proof {
                reveal_strlit("Analog Output Event - Double-precision floating point without time");
            }
            (42, Some(6u8), "Analog Output Event - Double-precision floating point without time")
        },
        77 => {
            proof {
                reveal_strlit("Analog Output Event - Single-preicions floating point with time");
            }
            (42, Some(7u8), "Analog Output Event - Single-preicions floating point with time")
        },
        78 => {
            proof {
                reveal_strlit("Analog Output Event - Double-preicions floating point with time");
            }
            (42, Some(8u8), "Analog Output Event - Double-preicions floating point with time")
        },
        79 => {
            proof {
                reveal_strlit("Time and Date - Absolute time");
            }
            (50, Some(1u8), "Time and Date - Absolute time")
        },
        80 => {
            proof {
                reveal_strlit("Time and Date - Absolute time at last recorded time");
            }
            (50, Some(3u8), "Time and Date - Absolute time at last recorded time")
        },
        81 => {
            proof {
                reveal_strlit("Time and Date - Indexed absolute time and long interval");
            }
            (50, Some(4u8), "Time and Date - Indexed absolute time and long interval")
        },
        82 => {
            proof {
                reveal_strlit("Time and date CTO - Absolute time, synchronized");
            }
            (51, Some(1u8), "Time and date CTO - Absolute time, synchronized")
        },
        83 => {
            proof {
                reveal_strlit("Time and date CTO - Absolute time, unsynchronized");
            }
            (51, Some(2u8), "Time and date CTO - Absolute time, unsynchronized")
        },
        84 => {
            proof {
                reveal_strlit("Time delay - Coarse");
            }
            (52, Some(1u8), "Time delay - Coarse")
        },
        85 => {
            proof {
                reveal_strlit("Time delay - Fine");
            }
            (52, Some(2u8), "Time delay - Fine")
        },
        86 => {
            proof {
                reveal_strlit("Class objects - Class 0 data");
            }
            (60, Some(1u8), "Class objects - Class 0 data")
        },
        87 => {
            proof {
                reveal_strlit("Class objects - Class 1 data");
            }
            (60, Some(2u8), "Class objects - Class 1 data")
        },
        88 => {
            proof {
                reveal_strlit("Class objects - Class 2 data");
            }
            (60, Some(3u8), "Class objects - Class 2 data")
        },
        89 => {
            proof {
                reveal_strlit("Class objects - Class 3 data");
            }
            (60, Some(4u8), "Class objects - Class 3 data")
        },
        90 => {
            proof {
                reveal_strlit("Internal Indications - Packed format");
            }
            (80, Some(1u8), "Internal Indications - Packed format")
        },
        91 => {
            proof {
                reveal_strlit("Octet String");
            }
            (110, None, "Octet String")
        },
        _ => {
            proof {
                reveal_strlit("Octet String Event");
            }
            (111, None, "Octet String Event")
        },
    }
}

/// `LibraryBuilder::define_enum`: starts an enum of the given name in the
/// library. It fails only on a name that the generator refuses; the builder
/// holds no variant and no documentation yet, numbers its first variant 0,
/// and will add the enum to the library as the library stands. The library
/// ends as the builder leaves it; when no builder is made it is unchanged.
#[verifier::external_body]
fn define_enum<'a>(lib: &'a mut LibraryBuilder, name: &str) -> (r: Result<
    EnumBuilder<'a>,
    BackTracedBindingError,
>)
    ensures
        accepted_name(name@) ==> r is Ok,
        r matches Ok(b) ==> {
            &&& builder_enum_name(b) == name@
            &&& builder_enum_doc(b) is None
            &&& builder_variants(b) == Seq::<(Seq<char>, Seq<char>, int)>::empty()
            &&& builder_next_value(b) == 0
            &&& builder_library_symbols(b) == library_symbols(*old(lib))
            &&& library_symbols(*final(lib)) == builder_final_symbols(b)
        },
        r is Err ==> library_symbols(*final(lib)) == library_symbols(*old(lib)),
{
    lib.define_enum(name).map_err(BackTracedBindingError::from)
}

/// `EnumBuilder::push`: adds a variant with the next value. It fails when the
/// name is refused or taken, or the value is taken; a name that the generator
/// accepts and that is free, with a free value, is added last, with `doc`
/// (which holds no `{`, so that it is plain text) as its documentation.
/// It does not touch the library: when it fails, the builder is dropped and
/// the library stays as it was. (A `{` starts a reference, which the
/// generator parses and panics on when it is malformed; a next value of
/// `i32::MAX` would overflow.)
#[verifier::external_body]
fn push<'a>(b: EnumBuilder<'a>, name: &String, doc: &str) -> (r: Result<
    EnumBuilder<'a>,
    BackTracedBindingError,
>)
    requires
        !doc@.contains('{'),
        builder_next_value(b) < 0x7fff_ffff,
    ensures
        r is Ok ==> fresh_variant(b, name@),
        accepted_name(name@) && fresh_variant(b, name@) ==> r is Ok,
        r matches Ok(n) ==> {
            &&& builder_variants(n) == builder_variants(b).push(
                (name@, doc@, builder_next_value(b)),
            )
            &&& builder_next_value(n) == builder_next_value(b) + 1
            &&& same_enum(n, b)
            &&& builder_final_symbols(n) == builder_final_symbols(b)
        },
        r is Err ==> builder_final_symbols(b) == builder_library_symbols(b),
{
    b.push(name.as_str(), doc).map_err(BackTracedBindingError::from)
}

/// `EnumBuilder::doc`: sets the enum's documentation, which must not be set
/// yet; the variants stay as they are. `text` holds no `{`, so that it is
/// plain text. It does not touch the library: when it fails, the builder is
/// dropped and the library stays as it was.
#[verifier::external_body]
fn set_doc<'a>(b: EnumBuilder<'a>, text: &str) -> (r: Result<EnumBuilder<'a>, BackTracedBindingError>)
    requires
        !text@.contains('{'),
    ensures
        r is Ok <==> builder_enum_doc(b) is None,
        r matches Ok(n) ==> {
            &&& builder_enum_doc(n) == Some(text@)
            &&& builder_enum_name(n) == builder_enum_name(b)
            &&& builder_library_symbols(n) == builder_library_symbols(b)
            &&& builder_variants(n) == builder_variants(b)
            &&& builder_next_value(n) == builder_next_value(b)
            &&& builder_final_symbols(n) == builder_final_symbols(b)
        },
        r is Err ==> builder_final_symbols(b) == builder_library_symbols(b),
{
    b.doc(text).map_err(BackTracedBindingError::from)
}

/// `EnumBuilder::build`: adds the enum, with the builder's name,
/// documentation and variants, to the library. It fails when the
/// documentation is not set or the library has a symbol of that name, and
/// the library is then left as it was; otherwise the enum's name is the one
/// symbol it adds.
#[verifier::external_body]
fn build<'a>(b: EnumBuilder<'a>) -> (r: Result<VariationEnum, BackTracedBindingError>)
    ensures
        r is Ok <==> (builder_enum_doc(b) is Some && !builder_library_symbols(b).contains(
            builder_enum_name(b),
        )),
        r matches Ok(e) ==> {
            &&& built_enum_name(e) == builder_enum_name(b)
            &&& builder_enum_doc(b) == Some(built_enum_doc(e))
            &&& built_variants(e) == builder_variants(b)
        },
        r is Ok ==> builder_final_symbols(b) == builder_library_symbols(b).insert(
            builder_enum_name(b),
        ),
        r is Err ==> builder_final_symbols(b) == builder_library_symbols(b),
{
    b.build().map(|handle| VariationEnum { handle }).map_err(BackTracedBindingError::from)
}

/// Defines the `variation` enum, documented `Group/Variation`, with the
/// table's variants in order. It succeeds exactly when the library has no
/// symbol `variation` yet, and then adds that symbol and no other; when it
/// fails the library's symbols stay as they were.
#[verifier::rlimit(50)]
pub fn define(lib: &mut LibraryBuilder) -> (r: Result<VariationEnum, BackTracedBindingError>)
    ensures
        r is Ok <==> !library_symbols(*old(lib)).contains(variation_name()),
        r is Ok ==> library_symbols(*final(lib)) == library_symbols(*old(lib)).insert(
            variation_name(),
        ),
        r is Err ==> library_symbols(*final(lib)) == library_symbols(*old(lib)),
        r matches Ok(e) ==> {
            &&& built_enum_name(e) == variation_name()
            &&& built_enum_doc(e) == "Group/Variation"@
            &&& built_variants(e) == spec_variation_table()
        },
{
    proof {
        reveal_strlit("variation");
        assert("variation"@ =~= variation_name());
        let s = variation_name();
        assert forall|i: int| 0 <= i < s.len() implies is_lower(s[i]) || is_digit(s[i]) by {}
        assert(accepted_name(variation_name()));
    }
    let ghost final_symbols = library_symbols(*final(lib));
    let mut b = define_enum(lib, "variation")?;
    let ghost table = spec_variation_table();
    let mut i: usize = 0;
    while i < 93
        invariant
            i <= variation_count(),
            table == spec_variation_table(),
            builder_enum_name(b) == variation_name(),
            builder_enum_doc(b) is None,
            builder_library_symbols(b) == library_symbols(*old(lib)),
            builder_final_symbols(b) == final_symbols,
            builder_variants(b) == table.take(i as int),
            builder_next_value(b) == i,
        decreases 93 - i,
    {
        let (group, variation, text) = variation_entry(i);
        let name = entry_name_string(group, variation);
        proof {
            let e = spec_variation(i as int);
            assert(name@ == entry_name(e));
            lemma_entry_name_accepted(e);
            assert forall|j: int| 0 <= j < builder_variants(b).len() implies builder_variants(
                b,
            )[j].0 != name@ && builder_variants(b)[j].2 != builder_next_value(b) by {
                assert(builder_variants(b)[j] == table[j]);
                lemma_variation_names_distinct(j, i as int);
            }
        }
        b = push(b, &name, text)?;
        assert(table.take(i + 1) =~= table.take(i as int).push(table[i as int]));
        i = i + 1;
    }
    assert(table.take(93) =~= table);
    proof {
        reveal_strlit("Group/Variation");
    }
    let b = set_doc(b, "Group/Variation")?;
    let variation = build(b)?;
    Ok(variation)
}

} // verus!
