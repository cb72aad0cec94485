//! Caller-supplied configuration overrides: the error-formatting style and the
//! output-rendering (table) mode, each parsed from a string into a closed
//! enumeration. The two have deliberately different fatality policies: an
//! invalid error style is fatal to the call, an invalid table mode silently
//! falls back to the default mode.

use vstd::prelude::*;
use vstd::string::StringSliceAdditionalSpecFns;

verus! {

/// How errors are formatted for display.
#[derive(Clone, Copy, PartialEq, Eq, Structural, Debug)]
pub enum ErrorStyle {
    Fancy,
    Plain,
    Short,
    Nested,
}

/// How tabular output is rendered.
#[derive(Clone, Copy, PartialEq, Eq, Structural, Debug)]
pub enum TableMode {
    Basic,
    Thin,
    Light,
    Compact,
    Frameless,
    WithLove,
    CompactDouble,
    Rounded,
    Reinforced,
    Heavy,
    NoBorder,
    Psql,
    Markdown,
    Dots,
    Restructured,
    AsciiRounded,
    BasicCompact,
    Single,
    Double,
}

/// ASCII lowercasing of one byte; bytes outside `A`..=`Z` are untouched.
pub open spec fn lower_byte(b: u8) -> u8 {
    if 65 <= b && b <= 90 {
        (b + 32) as u8
    } else {
        b
    }
}

/// ASCII lowercasing of a byte string.
pub open spec fn lower_bytes(s: Seq<u8>) -> Seq<u8> {
    s.map_values(|b: u8| lower_byte(b))
}

/// Whether `s`, lowercased, spells `lit`.
pub open spec fn spells(s: Seq<u8>, lit: Seq<u8>) -> bool {
    lower_bytes(s) == lit
}

/// Lowercases one byte.
fn lower_byte_exec(b: u8) -> (r: u8)
    ensures
        r == lower_byte(b),
{
    if 65 <= b && b <= 90 {
        b + 32
    } else {
        b
    }
}

/// Whether `s`, ASCII-lowercased, equals the byte string `lit`.
fn eq_lower(s: &[u8], lit: &[u8]) -> (r: bool)
    ensures
        r == spells(s@, lit@),
{
    if s.len() != lit.len() {
        assert(lower_bytes(s@).len() == s@.len());
        return false;
    }
    let n = s.len();
    let mut i: usize = 0;
    while i < n
        invariant
            n == s@.len() == lit@.len(),
            i <= n,
            forall|j: int| 0 <= j < i ==> lower_byte(s@[j]) == lit@[j],
        decreases n - i,
    {
        if lower_byte_exec(s[i]) != lit[i] {
            assert(lower_bytes(s@)[i as int] != lit@[i as int]);
            return false;
        }
        i = i + 1;
    }
    assert(lower_bytes(s@) =~= lit@);
    true
}

/// The name of each error style, as the override string spells it.
pub open spec fn fancy_name() -> Seq<u8> {
    seq![102u8, 97u8, 110u8, 99u8, 121u8]
}

pub open spec fn plain_name() -> Seq<u8> {
    seq![112u8, 108u8, 97u8, 105u8, 110u8]
}

pub open spec fn short_name() -> Seq<u8> {
    seq![115u8, 104u8, 111u8, 114u8, 116u8]
}

pub open spec fn nested_name() -> Seq<u8> {
    seq![110u8, 101u8, 115u8, 116u8, 101u8, 100u8]
}

/// The error style an override string names, read case-insensitively; `None`
/// for a string that names no style.
pub open spec fn error_style_of(s: Seq<u8>) -> Option<ErrorStyle> {
    if spells(s, fancy_name()) {
        Some(ErrorStyle::Fancy)
    } else if spells(s, plain_name()) {
        Some(ErrorStyle::Plain)
    } else if spells(s, short_name()) {
        Some(ErrorStyle::Short)
    } else if spells(s, nested_name()) {
        Some(ErrorStyle::Nested)
    } else {
        None
    }
}

/// Parses an error-style override string. Case-insensitive; an unknown name
/// yields `None`, which the caller treats as fatal.
pub fn parse_error_style(s: &str) -> (r: Option<ErrorStyle>)
    ensures
        r == error_style_of(s.spec_bytes()),
{
    let b = s.as_bytes();
    let fancy: [u8; 5] = [102, 97, 110, 99, 121];
    let plain: [u8; 5] = [112, 108, 97, 105, 110];
    let short: [u8; 5] = [115, 104, 111, 114, 116];
    let nested: [u8; 6] = [110, 101, 115, 116, 101, 100];
    assert(fancy@ =~= fancy_name());
    assert(plain@ =~= plain_name());
    assert(short@ =~= short_name());
    assert(nested@ =~= nested_name());
    if eq_lower(b, fancy.as_slice()) {
        Some(ErrorStyle::Fancy)
    } else if eq_lower(b, plain.as_slice()) {
        Some(ErrorStyle::Plain)
    } else if eq_lower(b, short.as_slice()) {
        Some(ErrorStyle::Short)
    } else if eq_lower(b, nested.as_slice()) {
        Some(ErrorStyle::Nested)
    } else {
        None
    }
}

/// The name of each table mode, as the override string spells it.
pub open spec fn basic_name() -> Seq<u8> {
    seq![98u8, 97u8, 115u8, 105u8, 99u8]
}

pub open spec fn thin_name() -> Seq<u8> {
    seq![116u8, 104u8, 105u8, 110u8]
}

pub open spec fn light_name() -> Seq<u8> {
    seq![108u8, 105u8, 103u8, 104u8, 116u8]
}

pub open spec fn compact_name() -> Seq<u8> {
    seq![99u8, 111u8, 109u8, 112u8, 97u8, 99u8, 116u8]
}

pub open spec fn frameless_name() -> Seq<u8> {
    seq![102u8, 114u8, 97u8, 109u8, 101u8, 108u8, 101u8, 115u8, 115u8]
}

pub open spec fn with_love_name() -> Seq<u8> {
    seq![119u8, 105u8, 116u8, 104u8, 95u8, 108u8, 111u8, 118u8, 101u8]
}

pub open spec fn compact_double_name() -> Seq<u8> {
    seq![99u8, 111u8, 109u8, 112u8, 97u8, 99u8, 116u8, 95u8, 100u8, 111u8, 117u8, 98u8, 108u8, 101u8]
}

pub open spec fn default_name() -> Seq<u8> {
    seq![100u8, 101u8, 102u8, 97u8, 117u8, 108u8, 116u8]
}

pub open spec fn rounded_name() -> Seq<u8> {
    seq![114u8, 111u8, 117u8, 110u8, 100u8, 101u8, 100u8]
}

pub open spec fn reinforced_name() -> Seq<u8> {
    seq![114u8, 101u8, 105u8, 110u8, 102u8, 111u8, 114u8, 99u8, 101u8, 100u8]
}

pub open spec fn heavy_name() -> Seq<u8> {
    seq![104u8, 101u8, 97u8, 118u8, 121u8]
}

pub open spec fn no_border_name() -> Seq<u8> {
    seq![110u8, 111u8, 110u8, 101u8]
}

pub open spec fn psql_name() -> Seq<u8> {
    seq![112u8, 115u8, 113u8, 108u8]
}

pub open spec fn markdown_name() -> Seq<u8> {
    seq![109u8, 97u8, 114u8, 107u8, 100u8, 111u8, 119u8, 110u8]
}

pub open spec fn dots_name() -> Seq<u8> {
    seq![100u8, 111u8, 116u8, 115u8]
}

pub open spec fn restructured_name() -> Seq<u8> {
    seq![114u8, 101u8, 115u8, 116u8, 114u8, 117u8, 99u8, 116u8, 117u8, 114u8, 101u8, 100u8]
}

pub open spec fn ascii_rounded_name() -> Seq<u8> {
    seq![97u8, 115u8, 99u8, 105u8, 105u8, 95u8, 114u8, 111u8, 117u8, 110u8, 100u8, 101u8, 100u8]
}

pub open spec fn basic_compact_name() -> Seq<u8> {
    seq![98u8, 97u8, 115u8, 105u8, 99u8, 95u8, 99u8, 111u8, 109u8, 112u8, 97u8, 99u8, 116u8]
}

pub open spec fn single_name() -> Seq<u8> {
    seq![115u8, 105u8, 110u8, 103u8, 108u8, 101u8]
}

pub open spec fn double_name() -> Seq<u8> {
    seq![100u8, 111u8, 117u8, 98u8, 108u8, 101u8]
}

/// Whether an override string names a table mode. The spelling `default` is
/// accepted and names the default mode.
pub open spec fn table_mode_valid(s: Seq<u8>) -> bool {
    ||| spells(s, basic_name())
    ||| spells(s, thin_name())
    ||| spells(s, light_name())
    ||| spells(s, compact_name())
    ||| spells(s, frameless_name())
    ||| spells(s, with_love_name())
    ||| spells(s, compact_double_name())
    ||| spells(s, default_name())
    ||| spells(s, rounded_name())
    ||| spells(s, reinforced_name())
    ||| spells(s, heavy_name())
    ||| spells(s, no_border_name())
    ||| spells(s, psql_name())
    ||| spells(s, markdown_name())
    ||| spells(s, dots_name())
    ||| spells(s, restructured_name())
    ||| spells(s, ascii_rounded_name())
    ||| spells(s, basic_compact_name())
    ||| spells(s, single_name())
    ||| spells(s, double_name())
}

/// The table mode an override string selects, read case-insensitively. A
/// string that names no mode selects the default mode (`Rounded`) rather than
/// failing: this fallback is the rendering-mode override's whole fatality
/// policy.
pub open spec fn table_mode_of(s: Seq<u8>) -> TableMode {
    if spells(s, basic_name()) {
        TableMode::Basic
    } else if spells(s, thin_name()) {
        TableMode::Thin
    } else if spells(s, light_name()) {
        TableMode::Light
    } else if spells(s, compact_name()) {
        TableMode::Compact
    } else if spells(s, frameless_name()) {
        TableMode::Frameless
    } else if spells(s, with_love_name()) {
        TableMode::WithLove
    } else if spells(s, compact_double_name()) {
        TableMode::CompactDouble
    } else if spells(s, reinforced_name()) {
        TableMode::Reinforced
    } else if spells(s, heavy_name()) {
        TableMode::Heavy
    } else if spells(s, no_border_name()) {
        TableMode::NoBorder
    } else if spells(s, psql_name()) {
        TableMode::Psql
    } else if spells(s, markdown_name()) {
        TableMode::Markdown
    } else if spells(s, dots_name()) {
        TableMode::Dots
    } else if spells(s, restructured_name()) {
        TableMode::Restructured
    } else if spells(s, ascii_rounded_name()) {
        TableMode::AsciiRounded
    } else if spells(s, basic_compact_name()) {
        TableMode::BasicCompact
    } else if spells(s, single_name()) {
        TableMode::Single
    } else if spells(s, double_name()) {
        TableMode::Double
    } else {
        TableMode::Rounded
    }
}

/// An override string that names no table mode selects the default mode: the
/// rendering-mode override never fails a call.
pub proof fn lemma_invalid_mode_selects_default(s: Seq<u8>)
    ensures
        !table_mode_valid(s) ==> table_mode_of(s) == TableMode::Rounded,
{
}

/// Parses a rendering-mode override string. Case-insensitive; an unknown name
/// silently selects the default mode instead of failing.
pub fn parse_table_mode(s: &str) -> (r: TableMode)
    ensures
        r == table_mode_of(s.spec_bytes()),
{
    let b = s.as_bytes();
    let basic_lit: [u8; 5] = [98, 97, 115, 105, 99];
    let thin_lit: [u8; 4] = [116, 104, 105, 110];
    let light_lit: [u8; 5] = [108, 105, 103, 104, 116];
    let compact_lit: [u8; 7] = [99, 111, 109, 112, 97, 99, 116];
    let frameless_lit: [u8; 9] = [102, 114, 97, 109, 101, 108, 101, 115, 115];
    let with_love_lit: [u8; 9] = [119, 105, 116, 104, 95, 108, 111, 118, 101];
    let compact_double_lit: [u8; 14] = [
        99,
        111,
        109,
        112,
        97,
        99,
        116,
        95,
        100,
        111,
        117,
        98,
        108,
        101,
    ];
    let rounded_lit: [u8; 7] = [114, 111, 117, 110, 100, 101, 100];
    let reinforced_lit: [u8; 10] = [114, 101, 105, 110, 102, 111, 114, 99, 101, 100];
    let heavy_lit: [u8; 5] = [104, 101, 97, 118, 121];
    let no_border_lit: [u8; 4] = [110, 111, 110, 101];
    let psql_lit: [u8; 4] = [112, 115, 113, 108];
    let markdown_lit: [u8; 8] = [109, 97, 114, 107, 100, 111, 119, 110];
    let dots_lit: [u8; 4] = [100, 111, 116, 115];
    let restructured_lit: [u8; 12] = [114, 101, 115, 116, 114, 117, 99, 116, 117, 114, 101, 100];
    let ascii_rounded_lit: [u8; 13] = [97, 115, 99, 105, 105, 95, 114, 111, 117, 110, 100, 101, 100];
    let basic_compact_lit: [u8; 13] = [98, 97, 115, 105, 99, 95, 99, 111, 109, 112, 97, 99, 116];
    let single_lit: [u8; 6] = [115, 105, 110, 103, 108, 101];
    let double_lit: [u8; 6] = [100, 111, 117, 98, 108, 101];
    assert(basic_lit@ =~= basic_name());
    assert(thin_lit@ =~= thin_name());
    assert(light_lit@ =~= light_name());
    assert(compact_lit@ =~= compact_name());
    assert(frameless_lit@ =~= frameless_name());
    assert(with_love_lit@ =~= with_love_name());
    assert(compact_double_lit@ =~= compact_double_name());
    assert(rounded_lit@ =~= rounded_name());
    assert(reinforced_lit@ =~= reinforced_name());
    assert(heavy_lit@ =~= heavy_name());
    assert(no_border_lit@ =~= no_border_name());
    assert(psql_lit@ =~= psql_name());
    assert(markdown_lit@ =~= markdown_name());
    assert(dots_lit@ =~= dots_name());
    assert(restructured_lit@ =~= restructured_name());
    assert(ascii_rounded_lit@ =~= ascii_rounded_name());
    assert(basic_compact_lit@ =~= basic_compact_name());
    assert(single_lit@ =~= single_name());
    assert(double_lit@ =~= double_name());
    if eq_lower(b, basic_lit.as_slice()) {
        TableMode::Basic
    } else if eq_lower(b, thin_lit.as_slice()) {
        TableMode::Thin
    } else if eq_lower(b, light_lit.as_slice()) {
        TableMode::Light
    } else if eq_lower(b, compact_lit.as_slice()) {
        TableMode::Compact
    } else if eq_lower(b, frameless_lit.as_slice()) {
        TableMode::Frameless
    } else if eq_lower(b, with_love_lit.as_slice()) {
        TableMode::WithLove
    } else if eq_lower(b, compact_double_lit.as_slice()) {
        TableMode::CompactDouble
    } else if eq_lower(b, reinforced_lit.as_slice()) {
        TableMode::Reinforced
    } else if eq_lower(b, heavy_lit.as_slice()) {
        TableMode::Heavy
    } else if eq_lower(b, no_border_lit.as_slice()) {
        TableMode::NoBorder
    } else if eq_lower(b, psql_lit.as_slice()) {
        TableMode::Psql
    } else if eq_lower(b, markdown_lit.as_slice()) {
        TableMode::Markdown
    } else if eq_lower(b, dots_lit.as_slice()) {
        TableMode::Dots
    } else if eq_lower(b, restructured_lit.as_slice()) {
        TableMode::Restructured
    } else if eq_lower(b, ascii_rounded_lit.as_slice()) {
        TableMode::AsciiRounded
    } else if eq_lower(b, basic_compact_lit.as_slice()) {
        TableMode::BasicCompact
    } else if eq_lower(b, single_lit.as_slice()) {
        TableMode::Single
    } else if eq_lower(b, double_lit.as_slice()) {
        TableMode::Double
    } else {
        TableMode::Rounded
    }
}

/// The canonical spelling of each table mode.
pub open spec fn table_mode_name(m: TableMode) -> Seq<u8> {
    match m {
        TableMode::Basic => basic_name(),
        TableMode::Thin => thin_name(),
        TableMode::Light => light_name(),
        TableMode::Compact => compact_name(),
        TableMode::Frameless => frameless_name(),
        TableMode::WithLove => with_love_name(),
        TableMode::CompactDouble => compact_double_name(),
        TableMode::Rounded => rounded_name(),
        TableMode::Reinforced => reinforced_name(),
        TableMode::Heavy => heavy_name(),
        TableMode::NoBorder => no_border_name(),
        TableMode::Psql => psql_name(),
        TableMode::Markdown => markdown_name(),
        TableMode::Dots => dots_name(),
        TableMode::Restructured => restructured_name(),
        TableMode::AsciiRounded => ascii_rounded_name(),
        TableMode::BasicCompact => basic_compact_name(),
        TableMode::Single => single_name(),
        TableMode::Double => double_name(),
    }
}

/// The canonical spelling of a mode names exactly that mode: the mode the
/// override parser selected is the one whose spelling is handed on to the
/// interpreter's configuration.
pub proof fn lemma_canonical_name_roundtrip(m: TableMode)
    ensures
        table_mode_of(table_mode_name(m)) == m,
        table_mode_valid(table_mode_name(m)),
{
    assert(lower_bytes(basic_name()) =~= basic_name());
    assert(lower_bytes(thin_name()) =~= thin_name());
    assert(lower_bytes(light_name()) =~= light_name());
    assert(lower_bytes(compact_name()) =~= compact_name());
    assert(lower_bytes(frameless_name()) =~= frameless_name());
    assert(lower_bytes(with_love_name()) =~= with_love_name());
    assert(lower_bytes(compact_double_name()) =~= compact_double_name());
    assert(lower_bytes(rounded_name()) =~= rounded_name());
    assert(lower_bytes(reinforced_name()) =~= reinforced_name());
    assert(lower_bytes(heavy_name()) =~= heavy_name());
    assert(lower_bytes(no_border_name()) =~= no_border_name());
    assert(lower_bytes(psql_name()) =~= psql_name());
    assert(lower_bytes(markdown_name()) =~= markdown_name());
    assert(lower_bytes(dots_name()) =~= dots_name());
    assert(lower_bytes(restructured_name()) =~= restructured_name());
    assert(lower_bytes(ascii_rounded_name()) =~= ascii_rounded_name());
    assert(lower_bytes(basic_compact_name()) =~= basic_compact_name());
    assert(lower_bytes(single_name()) =~= single_name());
    assert(lower_bytes(double_name()) =~= double_name());
}

/// The canonical spelling of a table mode, as UTF-8 bytes, handed to the
/// interpreter's configuration.
pub fn table_mode_name_bytes(m: &TableMode) -> (r: Vec<u8>)
    ensures
        r@ == table_mode_name(*m),
{
    match m {
        TableMode::Basic => {
            let lit: [u8; 5] = [98, 97, 115, 105, 99];
            assert(lit@ =~= basic_name());
            vstd::slice::slice_to_vec(lit.as_slice())
        },
        TableMode::Thin => {
            let lit: [u8; 4] = [116, 104, 105, 110];
            assert(lit@ =~= thin_name());
            vstd::slice::slice_to_vec(lit.as_slice())
        },
        TableMode::Light => {
            let lit: [u8; 5] = [108, 105, 103, 104, 116];
            assert(lit@ =~= light_name());
            vstd::slice::slice_to_vec(lit.as_slice())
        },
        TableMode::Compact => {
            let lit: [u8; 7] = [99, 111, 109, 112, 97, 99, 116];
            assert(lit@ =~= compact_name());
            vstd::slice::slice_to_vec(lit.as_slice())
        },
        TableMode::Frameless => {
            let lit: [u8; 9] = [102, 114, 97, 109, 101, 108, 101, 115, 115];
            assert(lit@ =~= frameless_name());
            vstd::slice::slice_to_vec(lit.as_slice())
        },
        TableMode::WithLove => {
            let lit: [u8; 9] = [119, 105, 116, 104, 95, 108, 111, 118, 101];
            assert(lit@ =~= with_love_name());
            vstd::slice::slice_to_vec(lit.as_slice())
        },
        TableMode::CompactDouble => {
            let lit: [u8; 14] = [99, 111, 109, 112, 97, 99, 116, 95, 100, 111, 117, 98, 108, 101];
            assert(lit@ =~= compact_double_name());
            vstd::slice::slice_to_vec(lit.as_slice())
        },
        TableMode::Rounded => {
            let lit: [u8; 7] = [114, 111, 117, 110, 100, 101, 100];
            assert(lit@ =~= rounded_name());
            vstd::slice::slice_to_vec(lit.as_slice())
        },
        TableMode::Reinforced => {
            let lit: [u8; 10] = [114, 101, 105, 110, 102, 111, 114, 99, 101, 100];
            assert(lit@ =~= reinforced_name());
            vstd::slice::slice_to_vec(lit.as_slice())
        },
        TableMode::Heavy => {
            let lit: [u8; 5] = [104, 101, 97, 118, 121];
            assert(lit@ =~= heavy_name());
            vstd::slice::slice_to_vec(lit.as_slice())
        },
        TableMode::NoBorder => {
            let lit: [u8; 4] = [110, 111, 110, 101];
            assert(lit@ =~= no_border_name());
            vstd::slice::slice_to_vec(lit.as_slice())
        },
        TableMode::Psql => {
            let lit: [u8; 4] = [112, 115, 113, 108];
            assert(lit@ =~= psql_name());
            vstd::slice::slice_to_vec(lit.as_slice())
        },
        TableMode::Markdown => {
            let lit: [u8; 8] = [109, 97, 114, 107, 100, 111, 119, 110];
            assert(lit@ =~= markdown_name());
            vstd::slice::slice_to_vec(lit.as_slice())
        },
        TableMode::Dots => {
            let lit: [u8; 4] = [100, 111, 116, 115];
            assert(lit@ =~= dots_name());
            vstd::slice::slice_to_vec(lit.as_slice())
        },
        TableMode::Restructured => {
            let lit: [u8; 12] = [114, 101, 115, 116, 114, 117, 99, 116, 117, 114, 101, 100];
            assert(lit@ =~= restructured_name());
            vstd::slice::slice_to_vec(lit.as_slice())
        },
        TableMode::AsciiRounded => {
            let lit: [u8; 13] = [97, 115, 99, 105, 105, 95, 114, 111, 117, 110, 100, 101, 100];
            assert(lit@ =~= ascii_rounded_name());
            vstd::slice::slice_to_vec(lit.as_slice())
        },
        TableMode::BasicCompact => {
            let lit: [u8; 13] = [98, 97, 115, 105, 99, 95, 99, 111, 109, 112, 97, 99, 116];
            assert(lit@ =~= basic_compact_name());
            vstd::slice::slice_to_vec(lit.as_slice())
        },
        TableMode::Single => {
            let lit: [u8; 6] = [115, 105, 110, 103, 108, 101];
            assert(lit@ =~= single_name());
            vstd::slice::slice_to_vec(lit.as_slice())
        },
        TableMode::Double => {
            let lit: [u8; 6] = [100, 111, 117, 98, 108, 101];
            assert(lit@ =~= double_name());
            vstd::slice::slice_to_vec(lit.as_slice())
        },
    }
}

} // verus!
