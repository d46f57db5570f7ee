//! Bit fields of a decoded radar and the tables that give them meaning.

use vstd::prelude::*;

use crate::radar::RadarView;

verus! {

/// What a radar cell may hold besides the player.
#[derive(Debug, Clone, Copy, PartialEq, Eq)]
pub enum Entity {
    Ally,
    Enemy,
    Monster,
}

/// The contents of one radar cell.
#[derive(Debug, Clone, Copy, PartialEq, Eq)]
pub struct RadarItem {
    pub is_hint: bool,
    pub is_goal: bool,
    pub entity: Option<Entity>,
}

/// `2` to the power `k`.
pub open spec fn pow2(k: nat) -> nat
    decreases k,
{
    if k == 0 {
        1
    } else {
        2 * pow2((k - 1) as nat)
    }
}

/// The `width` low bits of `v` as '0'/'1' characters, most significant first.
pub open spec fn bits_of(v: nat, width: nat) -> Seq<char> {
    Seq::new(
        width,
        |i: int|
            if (v / pow2((width - 1 - i) as nat)) % 2 == 1 {
                '1'
            } else {
                '0'
            },
    )
}

/// The 24-bit value of three wall bytes, the last byte most significant.
pub open spec fn wall_word(b: Seq<u8>) -> nat {
    (b[2] as nat) * 65536 + (b[1] as nat) * 256 + (b[0] as nat)
}

/// The 40-bit value of five cell bytes, the first byte most significant.
pub open spec fn cell_word(b: Seq<u8>) -> nat {
    (b[0] as nat) * pow2(32) + (b[1] as nat) * pow2(24) + (b[2] as nat) * pow2(16) + (b[3] as nat)
        * 256 + (b[4] as nat)
}

/// Wall code table: `01` open, `10` wall, anything else unknown.
pub open spec fn wall_of_pair(a: char, b: char) -> Option<bool> {
    if a == '0' && b == '1' {
        Some(false)
    } else if a == '1' && b == '0' {
        Some(true)
    } else {
        None
    }
}

/// The wall codes of a bit string, one per pair of characters; a trailing
/// single character reads as unknown.
pub open spec fn walls_of_bits(s: Seq<char>) -> Seq<Option<bool>> {
    Seq::new(
        ((s.len() + 1) / 2) as nat,
        |k: int|
            if 2 * k + 1 < s.len() {
                wall_of_pair(s[2 * k], s[2 * k + 1])
            } else {
                None
            },
    )
}

/// The two-character code of a wall value.
pub open spec fn wall_bits(w: Option<bool>) -> Seq<char> {
    match w {
        None => seq!['0', '0'],
        Some(false) => seq!['0', '1'],
        Some(true) => seq!['1', '0'],
    }
}

/// The entity of the low two bits of a cell code.
pub open spec fn entity_of_pair(a: char, b: char) -> Option<Entity> {
    if a == '0' && b == '1' {
        Some(Entity::Ally)
    } else if a == '1' && b == '0' {
        Some(Entity::Enemy)
    } else if a == '1' && b == '1' {
        Some(Entity::Monster)
    } else {
        None
    }
}

/// Only '0' and '1' in `s`.
pub open spec fn is_binary(s: Seq<char>) -> bool {
    forall|i: int| 0 <= i < s.len() ==> (#[trigger] s[i] == '0' || s[i] == '1')
}

/// Cell code table: high bits goal then hint, low bits the entity; `1111`
/// and anything that is not four binary digits mean no data.
pub open spec fn cell_of_bits(s: Seq<char>) -> Option<RadarItem> {
    if s.len() != 4 || !is_binary(s) || s =~= seq!['1', '1', '1', '1'] {
        None
    } else {
        Some(
            RadarItem {
                is_hint: s[1] == '1',
                is_goal: s[0] == '1',
                entity: entity_of_pair(s[2], s[3]),
            },
        )
    }
}

/// The four-character code of a cell value.
pub open spec fn cell_bits(c: Option<RadarItem>) -> Seq<char> {
    match c {
        None => seq!['1', '1', '1', '1'],
        Some(item) => {
            let e = match item.entity {
                None => seq!['0', '0'],
                Some(Entity::Ally) => seq!['0', '1'],
                Some(Entity::Enemy) => seq!['1', '0'],
                Some(Entity::Monster) => seq!['1', '1'],
            };
            seq![if item.is_goal { '1' } else { '0' }, if item.is_hint { '1' } else { '0' }] + e
        },
    }
}

/// The one cell value whose code is taken by "no data".
pub open spec fn is_sealed_item(c: Option<RadarItem>) -> bool {
    c == Some(RadarItem { is_hint: true, is_goal: true, entity: Some(Entity::Monster) })
}

/// Decoding the code of a wall value gives that value back.
pub proof fn lemma_wall_code_round_trip(w: Option<bool>)
    ensures
        walls_of_bits(wall_bits(w)) == seq![w],
{
    assert(walls_of_bits(wall_bits(w)) =~= seq![w]);
}

/// Decoding the code of a cell value gives that value back, for every value
/// but hint, goal and monster together, whose code means "no data".
pub proof fn lemma_cell_code_round_trip(c: Option<RadarItem>)
    requires
        !is_sealed_item(c),
    ensures
        cell_of_bits(cell_bits(c)) == c,
{
    let s = cell_bits(c);
    match c {
        None => {},
        Some(item) => {
            assert(s.len() == 4);
            assert(is_binary(s));
            if s =~= seq!['1', '1', '1', '1'] {
                assert(s[0] == '1' && s[1] == '1' && s[2] == '1' && s[3] == '1');
                assert(item.entity == Some(Entity::Monster));
            }
        },
    }
}

/// The number `2^k`, for `k` below 64.
fn pow2_u64(k: usize) -> (r: u64)
    requires
        k < 64,
    ensures
        r as nat == pow2(k as nat),
{
    let mut r: u64 = 1;
    let mut i: usize = 0;
    while i < k
        invariant
            i <= k < 64,
            r as nat == pow2(i as nat),
        decreases k - i,
    {
        proof {
            lemma_pow2_monotone((i + 1) as nat, 63);
            lemma_pow2_63();
        }
        r = r * 2;
        i += 1;
    }
    r
}

proof fn lemma_pow2_63()
    ensures
        pow2(63) == 0x8000_0000_0000_0000,
{
    reveal_with_fuel(pow2, 64);
}

proof fn lemma_pow2_monotone(a: nat, b: nat)
    requires
        a <= b,
    ensures
        pow2(a) <= pow2(b),
    decreases b,
{
    if a < b {
        lemma_pow2_monotone(a, (b - 1) as nat);
    }
}

proof fn lemma_pow2_positive(a: nat)
    ensures
        pow2(a) >= 1,
    decreases a,
{
    if a > 0 {
        lemma_pow2_positive((a - 1) as nat);
    }
}

/// The `width` low bits of `v`, most significant first.
pub(crate) fn binary_string(v: u64, width: usize) -> (r: String)
    requires
        0 < width <= 64,
    ensures
        r@ == bits_of(v as nat, width as nat),
{
    let mut s: String = String::new();
    let mut d: u64 = pow2_u64(width - 1);
    let mut i: usize = 0;
    proof {
        reveal_strlit("0");
        reveal_strlit("1");
    }
    while i < width
        invariant
            0 < width <= 64,
            i <= width,
            i < width ==> d as nat == pow2((width - 1 - i) as nat),
            s@ =~= bits_of(v as nat, width as nat).subrange(0, i as int),
            "0"@ == seq!['0'],
            "1"@ == seq!['1'],
        decreases width - i,
    {
        proof {
            lemma_pow2_positive((width - 1 - i) as nat);
        }
        if (v / d) % 2 == 1 {
            s.append("1");
        } else {
            s.append("0");
        }
        proof {
            if i + 1 < width {
                assert(pow2((width - 1 - i) as nat) == 2 * pow2((width - 1 - (i + 1)) as nat));
            }
        }
        d = d / 2;
        i += 1;
    }
    s
}

impl RadarView {
    /// The 24 bits of three wall bytes, read as a little-endian word and
    /// written most significant bit first; empty unless there are three bytes.
    pub fn convert_walls_bytes_to_string(data: &[u8]) -> (r: String)
        ensures
            data@.len() == 3 ==> r@ == bits_of(wall_word(data@), 24),
            data@.len() != 3 ==> r@.len() == 0,
    {
        if data.len() != 3 {
            return String::new();
        }
        let raw: u64 = (data[2] as u64) * 65536 + (data[1] as u64) * 256 + (data[0] as u64);
        binary_string(raw, 24)
    }

    /// The wall codes of a bit string, two characters each.
    pub fn extract_walls_data_from_bits_string(bit_string: &str) -> (r: Vec<Option<bool>>)
        ensures
            r@ == walls_of_bits(bit_string@),
    {
        let n: usize = bit_string.unicode_len();
        let mut r: Vec<Option<bool>> = Vec::new();
        let mut k: usize = 0;
        while k < n / 2 + n % 2
            invariant
                n == bit_string@.len(),
                k <= n / 2 + n % 2,
                n / 2 + n % 2 == (n + 1) / 2,
                r@ =~= walls_of_bits(bit_string@).subrange(0, k as int),
            decreases n / 2 + n % 2 - k,
        {
            if 2 * k + 1 < n {
                let a: char = bit_string.get_char(2 * k);
                let b: char = bit_string.get_char(2 * k + 1);
                if a == '0' && b == '1' {
                    r.push(Some(false));
                } else if a == '1' && b == '0' {
                    r.push(Some(true));
                } else {
                    r.push(None);
                }
            } else {
                r.push(None);
            }
            k += 1;
        }
        r
    }

    /// The first 36 of the 40 bits of five cell bytes, read most significant
    /// byte first, as nine four-character codes; empty unless there are five
    /// bytes.
    pub fn extract_cells_data(bytes: &[u8]) -> (r: Vec<String>)
        ensures
            bytes@.len() == 5 ==> r@.len() == 9 && forall|k: int|
                0 <= k < 9 ==> (#[trigger] r@[k])@ == bits_of(cell_word(bytes@), 40).subrange(
                    4 * k,
                    4 * k + 4,
                ),
            bytes@.len() != 5 ==> r@.len() == 0,
    {
        if bytes.len() != 5 {
            return Vec::new();
        }
        proof {
            reveal_with_fuel(pow2, 33);
        }
        let raw: u64 = (bytes[0] as u64) * 4294967296 + (bytes[1] as u64) * 16777216
            + (bytes[2] as u64) * 65536 + (bytes[3] as u64) * 256 + (bytes[4] as u64);
        let full: String = binary_string(raw, 40);
        let text: &str = full.as_str();
        let mut r: Vec<String> = Vec::new();
        let mut k: usize = 0;
        while k < 9
            invariant
                k <= 9,
                text@ == bits_of(cell_word(bytes@), 40),
                r@.len() == k,
                forall|j: int|
                    0 <= j < k ==> (#[trigger] r@[j])@ == bits_of(cell_word(bytes@), 40).subrange(
                        4 * j,
                        4 * j + 4,
                    ),
            decreases 9 - k,
        {
            let part: &str = text.substring_char(4 * k, 4 * k + 4);
            r.push(String::from_str(part));
            k += 1;
        }
        r
    }

    /// The meaning of a four-character cell code.
    pub fn get_radar_item_from_bits(bits: &str) -> (r: Option<RadarItem>)
        ensures
            r == cell_of_bits(bits@),
    {
        if bits.unicode_len() != 4 {
            return None;
        }
        let a: char = bits.get_char(0);
        let b: char = bits.get_char(1);
        let c: char = bits.get_char(2);
        let d: char = bits.get_char(3);
        let binary: bool = (a == '0' || a == '1') && (b == '0' || b == '1') && (c == '0' || c
            == '1') && (d == '0' || d == '1');
        if !binary {
            assert(!is_binary(bits@)) by {
                if a != '0' && a != '1' {
                    assert(!(bits@[0] == '0' || bits@[0] == '1'));
                } else if b != '0' && b != '1' {
                    assert(!(bits@[1] == '0' || bits@[1] == '1'));
                } else if c != '0' && c != '1' {
                    assert(!(bits@[2] == '0' || bits@[2] == '1'));
                } else {
                    assert(!(bits@[3] == '0' || bits@[3] == '1'));
                }
            }
            return None;
        }
        if a == '1' && b == '1' && c == '1' && d == '1' {
            assert(bits@ =~= seq!['1', '1', '1', '1']);
            return None;
        }
        assert(!(bits@ =~= seq!['1', '1', '1', '1'])) by {
            if bits@ =~= seq!['1', '1', '1', '1'] {
                assert(bits@[0] == '1' && bits@[1] == '1' && bits@[2] == '1' && bits@[3] == '1');
            }
        }
        let entity: Option<Entity> = if c == '0' && d == '1' {
            Some(Entity::Ally)
        } else if c == '1' && d == '0' {
            Some(Entity::Enemy)
        } else if c == '1' && d == '1' {
            Some(Entity::Monster)
        } else {
            None
        };
        Some(RadarItem { is_hint: b == '1', is_goal: a == '1', entity })
    }
}

} // verus!
