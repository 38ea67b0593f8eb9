//! Display topology: stable identifiers, user-facing labels, ordering and selection of
//! the physical displays reported by the platform.
use crate::capture::{frame_error_text, packed_check, CapturedFrame};
use crate::monitor::{
    id_error_text, info_error_text, monitor_id_check, monitor_info_check, MonitorId, MonitorInfo,
};
use crate::ports::PortError;
use crate::text::{
    decimal, digits_value, lemma_decimal_digits, lower_seq, push_char, push_decimal, str_eq,
    to_ascii_lowercase, trim, trim_seq,
};
use vstd::prelude::*;
use vstd::set_lib::{lemma_int_range, lemma_subset_equality, set_int_range};
use vstd::utf8::encode_utf8;
use vstd::wrapping::u64_specs::wrapping_mul;

verus! {

/// `a` sorts strictly before `b`, comparing characters from position `i` on by code point
/// (the byte order of their UTF-8 encodings).
pub open spec fn chars_lt_from(a: Seq<char>, b: Seq<char>, i: int) -> bool
    decreases a.len() - i,
{
    if i < 0 {
        false
    } else if i >= a.len() {
        i < b.len()
    } else if i >= b.len() {
        false
    } else if a[i] < b[i] {
        true
    } else if a[i] == b[i] {
        chars_lt_from(a, b, i + 1)
    } else {
        false
    }
}

/// Lexicographic order on text.
pub open spec fn chars_lt(a: Seq<char>, b: Seq<char>) -> bool {
    chars_lt_from(a, b, 0)
}

proof fn lemma_chars_lt_trans_from(a: Seq<char>, b: Seq<char>, c: Seq<char>, i: int)
    requires
        0 <= i,
        chars_lt_from(a, b, i),
        chars_lt_from(b, c, i),
    ensures
        chars_lt_from(a, c, i),
    decreases a.len() - i,
{
    if i < a.len() && i < b.len() && i < c.len() && a[i] == b[i] && b[i] == c[i] {
        lemma_chars_lt_trans_from(a, b, c, i + 1);
    }
}

proof fn lemma_chars_lt_total_from(a: Seq<char>, b: Seq<char>, i: int)
    requires
        0 <= i <= a.len(),
        i <= b.len(),
    ensures
        chars_lt_from(a, b, i) || chars_lt_from(b, a, i) || (a.len() == b.len() && forall|j: int|
            i <= j < a.len() ==> a[j] == b[j]),
    decreases a.len() - i,
{
    if i < a.len() && i < b.len() && a[i] == b[i] {
        lemma_chars_lt_total_from(a, b, i + 1);
    }
}

proof fn lemma_chars_lt_irreflexive_from(a: Seq<char>, i: int)
    requires
        0 <= i,
    ensures
        !chars_lt_from(a, a, i),
    decreases a.len() - i,
{
    if i < a.len() {
        lemma_chars_lt_irreflexive_from(a, i + 1);
    }
}

/// Lexicographic order is a strict total order.
pub proof fn lemma_chars_lt_order(a: Seq<char>, b: Seq<char>, c: Seq<char>)
    ensures
        !chars_lt(a, a),
        chars_lt(a, b) && chars_lt(b, c) ==> chars_lt(a, c),
        a == b || chars_lt(a, b) || chars_lt(b, a),
{
    lemma_chars_lt_irreflexive_from(a, 0);
    if chars_lt(a, b) && chars_lt(b, c) {
        lemma_chars_lt_trans_from(a, b, c, 0);
    }
    lemma_chars_lt_total_from(a, b, 0);
    if a.len() == b.len() && forall|j: int| 0 <= j < a.len() ==> a[j] == b[j] {
        assert(a =~= b);
    }
}

/// The order of display names: no name first.
pub open spec fn name_lt(a: Option<Seq<char>>, b: Option<Seq<char>>) -> bool {
    match (a, b) {
        (None, Some(_)) => true,
        (Some(x), Some(y)) => chars_lt(x, y),
        _ => false,
    }
}

/// What displays are ordered by: origin, then size, then name.
pub struct OrderKey {
    pub x: i32,
    pub y: i32,
    pub width: u32,
    pub height: u32,
    pub name: Option<String>,
}

/// An ordering key as plain values.
pub struct KeyView {
    pub x: i32,
    pub y: i32,
    pub width: u32,
    pub height: u32,
    pub name: Option<Seq<char>>,
}

impl View for OrderKey {
    type V = KeyView;

    open spec fn view(&self) -> KeyView {
        KeyView {
            x: self.x,
            y: self.y,
            width: self.width,
            height: self.height,
            name: match self.name {
                Some(n) => Some(n@),
                None => None,
            },
        }
    }
}

/// Lexicographic order on `(x, y, width, height, name)`.
pub open spec fn key_lt(a: KeyView, b: KeyView) -> bool {
    a.x < b.x || (a.x == b.x && (a.y < b.y || (a.y == b.y && (a.width < b.width || (a.width
        == b.width && (a.height < b.height || (a.height == b.height && name_lt(a.name, b.name))))))))
}

/// The key order is a strict total order.
pub proof fn lemma_key_lt_order(a: KeyView, b: KeyView, c: KeyView)
    ensures
        !key_lt(a, a),
        key_lt(a, b) && key_lt(b, c) ==> key_lt(a, c),
        a == b || key_lt(a, b) || key_lt(b, a),
{
    if let Some(x) = a.name {
        lemma_chars_lt_order(x, x, x);
    }
    match (a.name, b.name, c.name) {
        (Some(x), Some(y), Some(z)) => lemma_chars_lt_order(x, y, z),
        (Some(x), Some(y), None) => lemma_chars_lt_order(x, y, x),
        (None, Some(y), Some(z)) => lemma_chars_lt_order(y, z, y),
        (Some(x), None, Some(z)) => lemma_chars_lt_order(x, z, x),
        _ => {},
    }
}

/// `order` lists every key's index once, ordered by key, and keys that compare equal keep
/// their original relative order.
pub open spec fn sorted_stable(keys: Seq<KeyView>, order: Seq<usize>) -> bool {
    &&& order.len() == keys.len()
    &&& forall|i: int| 0 <= i < order.len() ==> #[trigger] order[i] < keys.len()
    &&& forall|i: int, j: int| 0 <= i < j < order.len() ==> order[i] != order[j]
    &&& forall|i: int, j: int|
        0 <= i < j < order.len() ==> !key_lt(#[trigger] keys[order[j] as int], #[trigger] keys[order[i] as int])
    &&& forall|i: int, j: int|
        0 <= i < j < order.len() && keys[order[i] as int] == keys[order[j] as int] ==> order[i] < order[j]
}

/// Index `j` comes before index `k`: its key is smaller, or the keys are equal and `j`
/// came first.
pub open spec fn comes_before(keys: Seq<KeyView>, j: int, k: int) -> bool {
    key_lt(keys[j], keys[k]) || (keys[j] == keys[k] && j < k)
}

proof fn lemma_comes_before_order(keys: Seq<KeyView>, j: int, k: int)
    ensures
        j != k ==> (comes_before(keys, j, k) || comes_before(keys, k, j)),
        !(comes_before(keys, j, k) && comes_before(keys, k, j)),
{
    lemma_key_lt_order(keys[j], keys[k], keys[j]);
    lemma_key_lt_order(keys[k], keys[j], keys[k]);
}

proof fn lemma_sorted_increasing(keys: Seq<KeyView>, order: Seq<usize>, a: int, b: int)
    requires
        sorted_stable(keys, order),
        0 <= a < b < order.len(),
    ensures
        comes_before(keys, order[a] as int, order[b] as int),
{
    lemma_key_lt_order(keys[order[a] as int], keys[order[b] as int], keys[order[a] as int]);
    assert(!key_lt(keys[order[b] as int], keys[order[a] as int]));
}

proof fn lemma_order_covers(keys: Seq<KeyView>, order: Seq<usize>, k: int)
    requires
        sorted_stable(keys, order),
        0 <= k < keys.len(),
    ensures
        exists|q: int| 0 <= q < order.len() && order[q] == k,
{
    let n = order.len();
    let s = order.map_values(|v: usize| v as int);
    assert(s.no_duplicates()) by {
        assert forall|i: int, j: int| 0 <= i < s.len() && 0 <= j < s.len() && i != j implies s[i]
            != s[j] by {
            if i < j {
                assert(order[i] != order[j]);
            } else {
                assert(order[j] != order[i]);
            }
        }
    }
    s.unique_seq_to_set();
    lemma_int_range(0, n as int);
    assert(s.to_set().subset_of(set_int_range(0, n as int))) by {
        assert forall|x: int| s.to_set().contains(x) implies set_int_range(0, n as int).contains(x) by {
            assert(s.contains(x));
            let i = choose|i: int| 0 <= i < s.len() && s[i] == x;
            assert(order[i] < keys.len());
        }
    }
    lemma_subset_equality(s.to_set(), set_int_range(0, n as int));
    assert(set_int_range(0, n as int).contains(k));
    assert(s.to_set().contains(k));
    assert(s.contains(k));
    let q = choose|i: int| 0 <= i < s.len() && s[i] == k;
    assert(order[q] == k);
}

proof fn lemma_sorted_prefix(keys: Seq<KeyView>, o1: Seq<usize>, o2: Seq<usize>, i: int)
    requires
        sorted_stable(keys, o1),
        sorted_stable(keys, o2),
        0 <= i <= o1.len(),
        forall|j: int| 0 <= j < i ==> o1[j] == o2[j],
    ensures
        o1 == o2,
    decreases o1.len() - i,
{
    if i == o1.len() {
        assert(o1 =~= o2);
    } else {
        let a = o1[i] as int;
        let b = o2[i] as int;
        if a != b {
            lemma_comes_before_order(keys, a, b);
            if comes_before(keys, a, b) {
                lemma_order_covers(keys, o2, a);
                let q = choose|q: int| 0 <= q < o2.len() && o2[q] == a;
                if q < i {
                    assert(o1[q] == a);
                } else {
                    lemma_sorted_increasing(keys, o2, i, q);
                }
            } else {
                lemma_order_covers(keys, o1, b);
                let q = choose|q: int| 0 <= q < o1.len() && o1[q] == b;
                if q < i {
                    assert(o2[q] == b);
                } else {
                    lemma_sorted_increasing(keys, o1, i, q);
                }
            }
        }
        lemma_sorted_prefix(keys, o1, o2, i + 1);
    }
}

/// There is exactly one stable sorted order of a list of keys, so the order of the
/// displays, and the identifiers numbered along it, are determined by the displays.
pub proof fn lemma_sorted_stable_unique(keys: Seq<KeyView>, o1: Seq<usize>, o2: Seq<usize>)
    requires
        sorted_stable(keys, o1),
        sorted_stable(keys, o2),
    ensures
        o1 == o2,
{
    lemma_sorted_prefix(keys, o1, o2, 0);
}

/// Lexicographic comparison of text by code point.
pub fn chars_less(a: &str, b: &str) -> (r: bool)
    ensures
        r == chars_lt(a@, b@),
{
    let na = a.unicode_len();
    let nb = b.unicode_len();
    let mut i: usize = 0;
    while i < na && i < nb
        invariant
            na == a@.len(),
            nb == b@.len(),
            i <= na,
            i <= nb,
            chars_lt(a@, b@) == chars_lt_from(a@, b@, i as int),
        decreases na - i,
    {
        let ca = a.get_char(i);
        let cb = b.get_char(i);
        if ca < cb {
            return true;
        }
        if cb < ca {
            return false;
        }
        i = i + 1;
    }
    i == na && i < nb
}

/// Whether `a` sorts strictly before `b`.
pub fn key_less(a: &OrderKey, b: &OrderKey) -> (r: bool)
    ensures
        r == key_lt(a@, b@),
{
    if a.x != b.x {
        return a.x < b.x;
    }
    if a.y != b.y {
        return a.y < b.y;
    }
    if a.width != b.width {
        return a.width < b.width;
    }
    if a.height != b.height {
        return a.height < b.height;
    }
    match (&a.name, &b.name) {
        (None, Some(_)) => true,
        (Some(x), Some(y)) => chars_less(x.as_str(), y.as_str()),
        _ => false,
    }
}

/// A stable sort of the keys, as the list of their indices in sorted order.
pub fn sort_order(keys: &[OrderKey]) -> (r: Vec<usize>)
    ensures
        sorted_stable(keys@.map_values(|k: OrderKey| k@), r@),
{
    let ghost kv = keys@.map_values(|k: OrderKey| k@);
    let n = keys.len();
    let mut order: Vec<usize> = Vec::new();
    let mut i: usize = 0;
    while i < n
        invariant
            n == keys.len(),
            kv == keys@.map_values(|k: OrderKey| k@),
            i <= n,
            order.len() == i,
            forall|a: int| 0 <= a < order.len() ==> #[trigger] order@[a] < i,
            forall|a: int, b: int| 0 <= a < b < order.len() ==> order@[a] != order@[b],
            forall|a: int, b: int|
                0 <= a < b < order.len() ==> !key_lt(#[trigger] kv[order@[b] as int], #[trigger] kv[order@[a] as int]),
            forall|a: int, b: int|
                0 <= a < b < order.len() && kv[order@[a] as int] == kv[order@[b] as int] ==> order@[a]
                    < order@[b],
        decreases n - i,
    {
        let mut p: usize = order.len();
        while p > 0 && key_less(&keys[i], &keys[order[p - 1]])
            invariant
                n == keys.len(),
                kv == keys@.map_values(|k: OrderKey| k@),
                i < n,
                order.len() == i,
                p <= order.len(),
                forall|a: int| 0 <= a < order.len() ==> #[trigger] order@[a] < i,
                forall|q: int| p <= q < order.len() ==> key_lt(kv[i as int], #[trigger] kv[order@[q] as int]),
            decreases p,
        {
            p = p - 1;
        }
        let ghost old_order = order@;
        proof {
            assert(p == 0 || !key_lt(kv[i as int], kv[old_order[p - 1] as int]));
        }
        order.insert(p, i);
        proof {
            let new_order = order@;
            assert(new_order == old_order.insert(p as int, i));
            assert forall|a: int| 0 <= a < new_order.len() implies #[trigger] new_order[a] < i + 1 by {
                if a < p {
                    assert(new_order[a] == old_order[a]);
                } else if a > p {
                    assert(new_order[a] == old_order[a - 1]);
                }
            }
            assert forall|a: int, b: int| 0 <= a < b < new_order.len() implies new_order[a] != new_order[b] by {
                if a < p {
                    assert(new_order[a] == old_order[a]);
                } else if a > p {
                    assert(new_order[a] == old_order[a - 1]);
                }
                if b < p {
                    assert(new_order[b] == old_order[b]);
                } else if b > p {
                    assert(new_order[b] == old_order[b - 1]);
                }
            }
            assert forall|a: int, b: int| 0 <= a < b < new_order.len() implies !key_lt(
                #[trigger] kv[new_order[b] as int],
                #[trigger] kv[new_order[a] as int],
            ) && (kv[new_order[a] as int] == kv[new_order[b] as int] ==> new_order[a] < new_order[b]) by {
                let ka = kv[new_order[a] as int];
                let kb = kv[new_order[b] as int];
                let knew = kv[i as int];
                if b < p {
                    assert(new_order[a] == old_order[a]);
                    assert(new_order[b] == old_order[b]);
                } else if b == p {
                    assert(new_order[a] == old_order[a]);
                    let kp = kv[old_order[p - 1] as int];
                    if a < p - 1 {
                        assert(!key_lt(kp, ka));
                    }
                    lemma_key_lt_order(ka, kp, knew);
                    lemma_key_lt_order(kp, knew, ka);
                    lemma_key_lt_order(ka, knew, kp);
                    lemma_key_lt_order(knew, ka, kp);
                } else if a == p {
                    assert(new_order[b] == old_order[b - 1]);
                    assert(key_lt(knew, kb));
                    lemma_key_lt_order(knew, kb, knew);
                } else if a < p {
                    assert(new_order[a] == old_order[a]);
                    assert(new_order[b] == old_order[b - 1]);
                } else {
                    assert(new_order[a] == old_order[a - 1]);
                    assert(new_order[b] == old_order[b - 1]);
                }
            }
        }
        i = i + 1;
    }
    order
}


/// The name shown for a display: the trimmed native name, cut to 80 characters, unless it
/// is empty or a generic "Unknown Monitor" placeholder.
pub open spec fn friendly_name_spec(raw: Seq<char>) -> Option<Seq<char>> {
    let t = trim_seq(raw);
    let p = "unknown monitor "@;
    if t.len() == 0 || (t.len() >= p.len() && lower_seq(t).subrange(0, p.len() as int) == p) {
        None
    } else if t.len() <= 80 {
        Some(t)
    } else {
        Some(t.subrange(0, 80))
    }
}

/// The user-facing name of a display, if its native name is meaningful.
pub fn friendly_name(raw: &str) -> (r: Option<String>)
    ensures
        match r {
            Some(name) => friendly_name_spec(raw@) == Some(name@),
            None => friendly_name_spec(raw@) is None,
        },
{
    let name = trim(raw);
    let n = name.unicode_len();
    if n == 0 {
        return None;
    }
    let prefix = "unknown monitor ";
    let k = prefix.unicode_len();
    if n >= k {
        let lower = to_ascii_lowercase(name.as_str());
        if str_eq(lower.as_str().substring_char(0, k), prefix) {
            return None;
        }
    }
    if n <= 80 {
        assert(name@.subrange(0, n as int) =~= name@);
        Some(String::from_str(name.as_str().substring_char(0, n)))
    } else {
        Some(String::from_str(name.as_str().substring_char(0, 80)))
    }
}

/// 64-bit FNV-1a of the bytes.
pub open spec fn stable_hash_spec(bytes: Seq<u8>) -> u64
    decreases bytes.len(),
{
    if bytes.len() == 0 {
        0xcbf2_9ce4_8422_2325u64
    } else {
        wrapping_mul(stable_hash_spec(bytes.drop_last()) ^ (bytes.last() as u64), 0x0000_0100_0000_01b3u64)
    }
}

/// A hash of the bytes that is the same in every process and on every machine.
pub fn stable_hash(bytes: &[u8]) -> (r: u64)
    ensures
        r == stable_hash_spec(bytes@),
{
    let mut hash: u64 = 0xcbf2_9ce4_8422_2325;
    let mut i: usize = 0;
    while i < bytes.len()
        invariant
            i <= bytes.len(),
            hash == stable_hash_spec(bytes@.subrange(0, i as int)),
        decreases bytes.len() - i,
    {
        proof {
            let next = bytes@.subrange(0, i + 1);
            assert(next.drop_last() =~= bytes@.subrange(0, i as int));
            assert(next.last() == bytes@[i as int]);
        }
        hash = (hash ^ (bytes[i] as u64)).wrapping_mul(0x0000_0100_0000_01b3);
        i = i + 1;
    }
    assert(bytes@.subrange(0, bytes.len() as int) =~= bytes@);
    hash
}

/// A lowercase hexadecimal digit.
pub open spec fn hex_char(d: int) -> char {
    if d < 10 {
        (48 + d) as char
    } else {
        (87 + d) as char
    }
}

/// The last `k` hexadecimal digits of `n`, zero-padded.
pub open spec fn hex_fixed(n: nat, k: nat) -> Seq<char>
    decreases k,
{
    if k == 0 {
        Seq::empty()
    } else {
        hex_fixed(n / 16, (k - 1) as nat).push(hex_char((n % 16) as int))
    }
}

/// Appends the last `k` hexadecimal digits of `n`, zero-padded.
fn push_hex(s: &mut String, n: u64, k: u32)
    ensures
        final(s)@ == old(s)@ + hex_fixed(n as nat, k as nat),
    decreases k,
{
    if k > 0 {
        push_hex(s, n / 16, k - 1);
        let d: u8 = (n % 16) as u8;
        let c: char = if d < 10 {
            (d + 48) as char
        } else {
            (d + 87) as char
        };
        push_char(s, c);
        assert(hex_fixed(n as nat, k as nat) == hex_fixed((n / 16) as nat, (k - 1) as nat).push(
            hex_char((n % 16) as int),
        ));
    } else {
        assert(old(s)@ + hex_fixed(n as nat, 0) =~= old(s)@);
    }
}

/// `true` or `false`.
pub open spec fn bool_text(b: bool) -> Seq<char> {
    if b {
        "true"@
    } else {
        "false"@
    }
}

/// What identifies a display across sessions: its name, size, rotation and whether it is
/// built in, in lowercase.
pub open spec fn identity_base_spec(
    friendly: Option<Seq<char>>,
    width: u32,
    height: u32,
    rotation_degrees: u16,
    is_builtin: bool,
) -> Seq<char> {
    let name = match friendly {
        Some(n) => n,
        None => "display"@,
    };
    lower_seq(
        name + "|"@ + decimal(width as nat) + "x"@ + decimal(height as nat) + "|r"@ + decimal(
            rotation_degrees as nat,
        ) + "|builtin="@ + bool_text(is_builtin),
    )
}

/// The identity text of a display, from which its identifier is derived.
pub fn identity_base(
    friendly: Option<&str>,
    width: u32,
    height: u32,
    rotation_degrees: u16,
    is_builtin: bool,
) -> (r: String)
    ensures
        r@ == identity_base_spec(
            match friendly {
                Some(n) => Some(n@),
                None => None,
            },
            width,
            height,
            rotation_degrees,
            is_builtin,
        ),
{
    let mut s = String::new();
    match friendly {
        Some(n) => s.append(n),
        None => s.append("display"),
    }
    s.append("|");
    push_decimal(&mut s, width as u64);
    s.append("x");
    push_decimal(&mut s, height as u64);
    s.append("|r");
    push_decimal(&mut s, rotation_degrees as u64);
    s.append("|builtin=");
    if is_builtin {
        s.append("true");
    } else {
        s.append("false");
    }
    to_ascii_lowercase(s.as_str())
}

/// The identifier of a display: a hash of its identity, numbered when several displays
/// share that identity.
pub open spec fn id_text_spec(base: Seq<char>, total: nat, occurrence: nat) -> Seq<char> {
    "display-"@ + hex_fixed(stable_hash_spec(encode_utf8(base)) as nat, 16) + if total > 1 {
        "-"@ + decimal(occurrence)
    } else {
        Seq::empty()
    }
}

/// The identifier text of the `occurrence`-th of `total` displays with this identity.
pub fn id_text(base: &str, total: usize, occurrence: usize) -> (r: String)
    ensures
        r@ == id_text_spec(base@, total as nat, occurrence as nat),
{
    let mut s = String::from_str("display-");
    push_hex(&mut s, stable_hash(base.as_bytes()), 16);
    if total > 1 {
        s.append("-");
        push_decimal(&mut s, occurrence as u64);
    } else {
        assert(s@ + Seq::<char>::empty() =~= s@);
    }
    s
}

/// The label of a display: its name, or its position, with size and scale.
pub open spec fn label_spec(
    friendly: Option<Seq<char>>,
    position: nat,
    width: u32,
    height: u32,
    scale_factor_percent: u32,
    is_primary: bool,
) -> Seq<char> {
    let base = match friendly {
        Some(n) => n,
        None => "Display "@ + decimal(position + 1),
    };
    base + " ("@ + decimal(width as nat) + "\u{d7}"@ + decimal(height as nat) + ", "@ + decimal(
        scale_factor_percent as nat,
    ) + "%)"@ + if is_primary {
        " \u{2014} Primary"@
    } else {
        Seq::empty()
    }
}

/// The user-facing label of the display at this position.
pub fn label_text(
    friendly: Option<&str>,
    position: usize,
    width: u32,
    height: u32,
    scale_factor_percent: u32,
    is_primary: bool,
) -> (r: String)
    requires
        position < usize::MAX,
    ensures
        r@ == label_spec(
            match friendly {
                Some(n) => Some(n@),
                None => None,
            },
            position as nat,
            width,
            height,
            scale_factor_percent,
            is_primary,
        ),
{
    let mut s = String::new();
    match friendly {
        Some(n) => s.append(n),
        None => {
            s.append("Display ");
            push_decimal(&mut s, (position + 1) as u64);
        },
    }
    s.append(" (");
    push_decimal(&mut s, width as u64);
    s.append("\u{d7}");
    push_decimal(&mut s, height as u64);
    s.append(", ");
    push_decimal(&mut s, scale_factor_percent as u64);
    s.append("%)");
    if is_primary {
        s.append(" \u{2014} Primary");
    } else {
        assert(s@ + Seq::<char>::empty() =~= s@);
    }
    s
}


/// First index from `i` on of the display with this identifier, or -1.
pub open spec fn index_with_id(monitors: Seq<MonitorInfo>, id: Seq<char>, i: int) -> int
    decreases monitors.len() - i,
{
    if i < 0 || i >= monitors.len() {
        -1
    } else if monitors[i].id@ == id {
        i
    } else {
        index_with_id(monitors, id, i + 1)
    }
}

/// First index from `i` on of a primary display, or -1.
pub open spec fn index_of_primary(monitors: Seq<MonitorInfo>, i: int) -> int
    decreases monitors.len() - i,
{
    if i < 0 || i >= monitors.len() {
        -1
    } else if monitors[i].is_primary {
        i
    } else {
        index_of_primary(monitors, i + 1)
    }
}

/// The display to capture, and whether it replaces an unavailable requested one: the
/// requested display when present, else the first primary display, else the first one.
pub open spec fn selection(monitors: Seq<MonitorInfo>, requested: Option<Seq<char>>) -> Option<(usize, bool)> {
    let found = match requested {
        Some(id) => index_with_id(monitors, id, 0),
        None => -1,
    };
    if found >= 0 {
        Some((found as usize, false))
    } else if index_of_primary(monitors, 0) >= 0 {
        Some((index_of_primary(monitors, 0) as usize, requested is Some))
    } else if monitors.len() > 0 {
        Some((0, requested is Some))
    } else {
        None
    }
}

proof fn lemma_index_with_id_first(monitors: Seq<MonitorInfo>, id: Seq<char>, i: int, k: int)
    requires
        0 <= i <= k < monitors.len(),
        monitors[k].id@ == id,
        forall|j: int| i <= j < k ==> monitors[j].id@ != id,
    ensures
        index_with_id(monitors, id, i) == k,
    decreases k - i,
{
    if i < k {
        lemma_index_with_id_first(monitors, id, i + 1, k);
    }
}

proof fn lemma_index_with_id_absent(monitors: Seq<MonitorInfo>, id: Seq<char>, i: int)
    requires
        0 <= i,
        forall|j: int| i <= j < monitors.len() ==> monitors[j].id@ != id,
    ensures
        index_with_id(monitors, id, i) == -1,
    decreases monitors.len() - i,
{
    if i < monitors.len() {
        lemma_index_with_id_absent(monitors, id, i + 1);
    }
}

proof fn lemma_index_of_primary_first(monitors: Seq<MonitorInfo>, i: int, k: int)
    requires
        0 <= i <= k < monitors.len(),
        monitors[k].is_primary,
        forall|j: int| i <= j < k ==> !monitors[j].is_primary,
    ensures
        index_of_primary(monitors, i) == k,
    decreases k - i,
{
    if i < k {
        lemma_index_of_primary_first(monitors, i + 1, k);
    }
}

proof fn lemma_index_of_primary_absent(monitors: Seq<MonitorInfo>, i: int)
    requires
        0 <= i,
        forall|j: int| i <= j < monitors.len() ==> !monitors[j].is_primary,
    ensures
        index_of_primary(monitors, i) == -1,
    decreases monitors.len() - i,
{
    if i < monitors.len() {
        lemma_index_of_primary_absent(monitors, i + 1);
    }
}

/// A requested display that is present is the one captured: the first display with that
/// identifier, with no fallback reported.
pub proof fn lemma_selection_takes_requested(monitors: Seq<MonitorInfo>, id: Seq<char>, k: int)
    requires
        0 <= k < monitors.len(),
        monitors[k].id@ == id,
        forall|j: int| 0 <= j < k ==> monitors[j].id@ != id,
    ensures
        selection(monitors, Some(id)) == Some((k as usize, false)),
{
    lemma_index_with_id_first(monitors, id, 0, k);
}

/// With no display requested, or the requested one absent, the first primary display is
/// captured; a fallback is reported exactly when a display was requested.
pub proof fn lemma_selection_falls_back_to_primary(
    monitors: Seq<MonitorInfo>,
    requested: Option<Seq<char>>,
    p: int,
)
    requires
        0 <= p < monitors.len(),
        monitors[p].is_primary,
        forall|j: int| 0 <= j < p ==> !monitors[j].is_primary,
        requested matches Some(id) ==> forall|j: int| 0 <= j < monitors.len() ==> monitors[j].id@ != id,
    ensures
        selection(monitors, requested) == Some((p as usize, requested is Some)),
{
    if let Some(id) = requested {
        lemma_index_with_id_absent(monitors, id, 0);
    }
    lemma_index_of_primary_first(monitors, 0, p);
}

/// With no display requested, or the requested one absent, and no primary display, the
/// first display is captured; with no display at all there is nothing to capture.
pub proof fn lemma_selection_without_primary(monitors: Seq<MonitorInfo>, requested: Option<Seq<char>>)
    requires
        forall|j: int| 0 <= j < monitors.len() ==> !monitors[j].is_primary,
        requested matches Some(id) ==> forall|j: int| 0 <= j < monitors.len() ==> monitors[j].id@ != id,
    ensures
        monitors.len() > 0 ==> selection(monitors, requested) == Some((0usize, requested is Some)),
        monitors.len() == 0 ==> selection(monitors, requested) is None,
{
    if let Some(id) = requested {
        lemma_index_with_id_absent(monitors, id, 0);
    }
    lemma_index_of_primary_absent(monitors, 0);
}

/// Chooses the display to capture and reports whether the requested one was unavailable.
pub fn select_monitor_index(monitors: &[MonitorInfo], requested: Option<&MonitorId>) -> (r: Option<(usize, bool)>)
    ensures
        r == selection(
            monitors@,
            match requested {
                Some(id) => Some(id@),
                None => None,
            },
        ),
{
    if let Some(id) = requested {
        let mut i: usize = 0;
        while i < monitors.len()
            invariant
                requested == Some(id),
                i <= monitors.len(),
                index_with_id(monitors@, id@, 0) == index_with_id(monitors@, id@, i as int),
            decreases monitors.len() - i,
        {
            if str_eq(monitors[i].id.as_str(), id.as_str()) {
                return Some((i, false));
            }
            i = i + 1;
        }
    }
    let mut p: usize = 0;
    while p < monitors.len()
        invariant
            p <= monitors.len(),
            index_of_primary(monitors@, 0) == index_of_primary(monitors@, p as int),
            match requested {
                Some(id) => index_with_id(monitors@, id@, 0) == -1,
                None => true,
            },
        decreases monitors.len() - p,
    {
        if monitors[p].is_primary {
            return Some((p, requested.is_some()));
        }
        p = p + 1;
    }
    if monitors.len() > 0 {
        Some((0, requested.is_some()))
    } else {
        None
    }
}

/// A physical display as the platform reports it, with its scale and rotation already
/// rounded to whole numbers.
#[derive(Clone, Debug, PartialEq, Eq)]
pub struct DisplayCandidate {
    /// Native display name; empty when the platform gives none.
    pub name: String,
    /// Physical-pixel horizontal origin in the virtual desktop.
    pub x: i32,
    /// Physical-pixel vertical origin in the virtual desktop.
    pub y: i32,
    /// Physical-pixel width.
    pub width: u32,
    /// Physical-pixel height.
    pub height: u32,
    /// Effective scale as an integer percentage.
    pub scale_factor_percent: u32,
    /// Clockwise rotation in degrees.
    pub rotation_degrees: u16,
    /// Whether this is the primary display.
    pub is_primary: bool,
    /// Whether this is a built-in panel.
    pub is_builtin: bool,
}

/// The ordering key of a display.
pub open spec fn key_of(c: DisplayCandidate) -> KeyView {
    KeyView {
        x: c.x,
        y: c.y,
        width: c.width,
        height: c.height,
        name: friendly_name_spec(c.name@),
    }
}

/// The identity text of a display.
pub open spec fn base_of(c: DisplayCandidate) -> Seq<char> {
    identity_base_spec(
        friendly_name_spec(c.name@),
        c.width,
        c.height,
        c.rotation_degrees,
        c.is_builtin,
    )
}

/// How many of the first `end` entries equal `b`.
pub open spec fn count_eq(s: Seq<Seq<char>>, b: Seq<char>, end: int) -> nat
    decreases end,
{
    if end <= 0 {
        0
    } else {
        count_eq(s, b, end - 1) + if s[end - 1] == b {
            1nat
        } else {
            0nat
        }
    }
}

/// The identity texts of the displays, in the given order.
pub open spec fn bases_in(cands: Seq<DisplayCandidate>, order: Seq<usize>) -> Seq<Seq<char>> {
    order.map_values(|k: usize| base_of(cands[k as int]))
}

/// The identifier text of the display at `position` in the given order.
pub open spec fn id_at(cands: Seq<DisplayCandidate>, order: Seq<usize>, position: int) -> Seq<char> {
    let bases = bases_in(cands, order);
    id_text_spec(
        bases[position],
        count_eq(bases, bases[position], bases.len() as int),
        count_eq(bases, bases[position], position + 1),
    )
}

proof fn lemma_count_monotone(s: Seq<Seq<char>>, b: Seq<char>, a: int, c: int)
    requires
        a <= c,
    ensures
        count_eq(s, b, a) <= count_eq(s, b, c),
    decreases c - a,
{
    if a < c {
        lemma_count_monotone(s, b, a, c - 1);
    }
}

/// Displays that share an identity get distinct identifiers.
pub proof fn lemma_shared_identity_distinct_ids(
    cands: Seq<DisplayCandidate>,
    order: Seq<usize>,
    i: int,
    j: int,
)
    requires
        0 <= i < j < order.len(),
        forall|k: int| 0 <= k < order.len() ==> #[trigger] order[k] < cands.len(),
        base_of(cands[order[i] as int]) == base_of(cands[order[j] as int]),
    ensures
        id_at(cands, order, i) != id_at(cands, order, j),
{
    let bases = bases_in(cands, order);
    let x = bases[i];
    assert(bases[j] == x);
    let occ_i = count_eq(bases, x, i + 1);
    let occ_j = count_eq(bases, x, j + 1);
    lemma_count_monotone(bases, x, i + 1, j);
    lemma_count_monotone(bases, x, j + 1, bases.len() as int);
    lemma_count_monotone(bases, x, 0, i);
    assert(occ_j == count_eq(bases, x, j) + 1);
    assert(occ_i == count_eq(bases, x, i) + 1);
    let total = count_eq(bases, x, bases.len() as int);
    assert(total > 1);
    let prefix = "display-"@ + hex_fixed(stable_hash_spec(encode_utf8(x)) as nat, 16);
    let a = id_at(cands, order, i);
    let b = id_at(cands, order, j);
    assert(a == prefix + ("-"@ + decimal(occ_i)));
    assert(b == prefix + ("-"@ + decimal(occ_j)));
    if a == b {
        assert(a.subrange(prefix.len() as int, a.len() as int) =~= "-"@ + decimal(occ_i));
        assert(b.subrange(prefix.len() as int, b.len() as int) =~= "-"@ + decimal(occ_j));
        reveal_strlit("-");
        let ta = "-"@ + decimal(occ_i);
        let tb = "-"@ + decimal(occ_j);
        assert(ta.subrange(1, ta.len() as int) =~= decimal(occ_i));
        assert(tb.subrange(1, tb.len() as int) =~= decimal(occ_j));
        lemma_decimal_digits(occ_i);
        lemma_decimal_digits(occ_j);
        assert(digits_value(decimal(occ_i)) == digits_value(decimal(occ_j)));
    }
}

/// The label of the display at `position` in the given order.
pub open spec fn label_at(cands: Seq<DisplayCandidate>, order: Seq<usize>, position: int) -> Seq<char> {
    let c = cands[order[position] as int];
    label_spec(
        friendly_name_spec(c.name@),
        position as nat,
        c.width,
        c.height,
        c.scale_factor_percent,
        c.is_primary,
    )
}

/// The failure, as operation and message, of describing the display at `position`.
pub open spec fn failure_at(cands: Seq<DisplayCandidate>, order: Seq<usize>, position: int) -> Option<
    (Seq<char>, Seq<char>),
> {
    let c = cands[order[position] as int];
    match monitor_id_check(id_at(cands, order, position)) {
        Err(e) => Some(("monitor_identifier"@, id_error_text(e))),
        Ok(_) => match monitor_info_check(
            label_at(cands, order, position),
            c.width,
            c.height,
            c.scale_factor_percent,
            c.rotation_degrees,
        ) {
            Err(e) => Some(("monitor_metadata"@, info_error_text(e))),
            Ok(_) => None,
        },
    }
}

/// `m` describes the display at `position` in the given order.
pub open spec fn describes(m: MonitorInfo, cands: Seq<DisplayCandidate>, order: Seq<usize>, position: int) -> bool {
    let c = cands[order[position] as int];
    &&& m.id@ == id_at(cands, order, position)
    &&& m.label@ == trim_seq(label_at(cands, order, position))
    &&& m.x == c.x
    &&& m.y == c.y
    &&& m.width == c.width
    &&& m.height == c.height
    &&& m.scale_factor_percent == c.scale_factor_percent
    &&& m.rotation_degrees == c.rotation_degrees
    &&& m.is_primary == c.is_primary
}

/// What describing the displays in this order gives: each display with its position in
/// the input, or the first failure.
pub open spec fn described_in_order(
    cands: Seq<DisplayCandidate>,
    order: Seq<usize>,
    r: Result<Vec<(usize, MonitorInfo)>, PortError>,
) -> bool {
    match r {
        Ok(v) => {
            &&& v@.len() == order.len()
            &&& forall|i: int| 0 <= i < order.len() ==> failure_at(cands, order, i) is None
            &&& forall|i: int|
                0 <= i < order.len() ==> (#[trigger] v@[i]).0 == order[i] && describes(
                    v@[i].1,
                    cands,
                    order,
                    i,
                )
        },
        Err(e) => exists|k: int|
            0 <= k < order.len() && (forall|i: int| 0 <= i < k ==> failure_at(cands, order, i) is None)
                && #[trigger] failure_at(cands, order, k) == Some((e.spec_operation(), e.spec_detail())),
    }
}

/// How many of the identity texts equal the one at `i`, in all and up to `i`.
fn identity_counts(bases: &Vec<String>, i: usize) -> (r: (usize, usize))
    requires
        i < bases.len(),
    ensures
        r.0 == count_eq(bases@.map_values(|s: String| s@), bases@[i as int]@, bases.len() as int),
        r.1 == count_eq(bases@.map_values(|s: String| s@), bases@[i as int]@, i + 1),
{
    let ghost bv = bases@.map_values(|s: String| s@);
    let n = bases.len();
    let mut total: usize = 0;
    let mut occurrence: usize = 0;
    let mut j: usize = 0;
    while j < n
        invariant
            n == bases.len(),
            bv == bases@.map_values(|s: String| s@),
            i < n,
            j <= n,
            total == count_eq(bv, bv[i as int], j as int),
            occurrence == count_eq(bv, bv[i as int], if j <= i + 1 { j as int } else { i + 1 }),
            total <= j,
            occurrence <= j,
        decreases n - j,
    {
        if bases[j] == bases[i] {
            total = total + 1;
            if j <= i {
                occurrence = occurrence + 1;
            }
        }
        j = j + 1;
    }
    (total, occurrence)
}

/// Describes one display: its identifier from its identity text and counts, its label
/// from its name and position.
fn describe_one(
    c: &DisplayCandidate,
    friendly: Option<&str>,
    base: &str,
    position: usize,
    total: usize,
    occurrence: usize,
) -> (r: Result<MonitorInfo, PortError>)
    requires
        position < usize::MAX,
    ensures
        ({
            let f = match friendly {
                Some(n) => Some(n@),
                None => None,
            };
            let id = id_text_spec(base@, total as nat, occurrence as nat);
            let label = label_spec(f, position as nat, c.width, c.height, c.scale_factor_percent, c.is_primary);
            match r {
                Ok(m) => monitor_id_check(id) is Ok && monitor_info_check(
                    label,
                    c.width,
                    c.height,
                    c.scale_factor_percent,
                    c.rotation_degrees,
                ) is Ok && m.id@ == id && m.label@ == trim_seq(label) && m.x == c.x && m.y == c.y
                    && m.width == c.width && m.height == c.height && m.scale_factor_percent
                    == c.scale_factor_percent && m.rotation_degrees == c.rotation_degrees
                    && m.is_primary == c.is_primary,
                Err(e) => match monitor_id_check(id) {
                    Err(ie) => e.spec_operation() == "monitor_identifier"@ && e.spec_detail()
                        == id_error_text(ie),
                    Ok(_) => match monitor_info_check(
                        label,
                        c.width,
                        c.height,
                        c.scale_factor_percent,
                        c.rotation_degrees,
                    ) {
                        Err(me) => e.spec_operation() == "monitor_metadata"@ && e.spec_detail()
                            == info_error_text(me),
                        Ok(_) => false,
                    },
                },
            }
        }),
{
    let id_string = id_text(base, total, occurrence);
    let id = match MonitorId::new(id_string.as_str()) {
        Ok(id) => id,
        Err(e) => {
            let detail = e.to_string();
            return Err(PortError::new("monitor_identifier", detail.as_str()));
        },
    };
    let label = label_text(friendly, position, c.width, c.height, c.scale_factor_percent, c.is_primary);
    match MonitorInfo::new(
        id,
        label,
        c.x,
        c.y,
        c.width,
        c.height,
        c.scale_factor_percent,
        c.rotation_degrees,
        c.is_primary,
    ) {
        Ok(info) => Ok(info),
        Err(e) => {
            let detail = e.to_string();
            Err(PortError::new("monitor_metadata", detail.as_str()))
        },
    }
}

/// Describes the displays in the given order: identifiers numbered among displays that
/// share an identity, and labels numbered by position.
pub fn describe_in_order(cands: &[DisplayCandidate], order: &[usize]) -> (r: Result<
    Vec<(usize, MonitorInfo)>,
    PortError,
>)
    requires
        forall|i: int| 0 <= i < order.len() ==> #[trigger] order@[i] < cands.len(),
    ensures
        described_in_order(cands@, order@, r),
{
    let n = order.len();
    let ghost bases_spec = bases_in(cands@, order@);
    let mut friendly: Vec<Option<String>> = Vec::new();
    let mut bases: Vec<String> = Vec::new();
    let mut k: usize = 0;
    while k < n
        invariant
            n == order.len(),
            k <= n,
            forall|i: int| 0 <= i < order.len() ==> #[trigger] order@[i] < cands.len(),
            bases_spec == bases_in(cands@, order@),
            friendly.len() == k,
            bases.len() == k,
            forall|i: int| 0 <= i < k ==> #[trigger] bases@[i]@ == bases_spec[i],
            forall|i: int|
                0 <= i < k ==> match #[trigger] friendly@[i] {
                    Some(f) => friendly_name_spec(cands@[order@[i] as int].name@) == Some(f@),
                    None => friendly_name_spec(cands@[order@[i] as int].name@) is None,
                },
        decreases n - k,
    {
        let c = &cands[order[k]];
        let f = friendly_name(c.name.as_str());
        let fr: Option<&str> = match &f {
            Some(s) => Some(s.as_str()),
            None => None,
        };
        let base = identity_base(fr, c.width, c.height, c.rotation_degrees, c.is_builtin);
        friendly.push(f);
        bases.push(base);
        k = k + 1;
    }
    assert(bases@.map_values(|s: String| s@) =~= bases_spec);
    let mut out: Vec<(usize, MonitorInfo)> = Vec::new();
    let mut i: usize = 0;
    while i < n
        invariant
            n == order.len(),
            i <= n,
            forall|j: int| 0 <= j < order.len() ==> #[trigger] order@[j] < cands.len(),
            bases_spec == bases_in(cands@, order@),
            friendly.len() == n,
            bases.len() == n,
            bases@.map_values(|s: String| s@) == bases_spec,
            forall|j: int|
                0 <= j < n ==> match #[trigger] friendly@[j] {
                    Some(f) => friendly_name_spec(cands@[order@[j] as int].name@) == Some(f@),
                    None => friendly_name_spec(cands@[order@[j] as int].name@) is None,
                },
            out.len() == i,
            forall|j: int| 0 <= j < i ==> failure_at(cands@, order@, j) is None,
            forall|j: int|
                0 <= j < i ==> (#[trigger] out@[j]).0 == order@[j] && describes(
                    out@[j].1,
                    cands@,
                    order@,
                    j,
                ),
        decreases n - i,
    {
        let (total, occurrence) = identity_counts(&bases, i);
        let c = &cands[order[i]];
        let fr: Option<&str> = match &friendly[i] {
            Some(s) => Some(s.as_str()),
            None => None,
        };
        proof {
            assert(bases_spec[i as int] == bases@[i as int]@);
            assert(id_at(cands@, order@, i as int) == id_text_spec(bases@[i as int]@, total as nat, occurrence as nat));
        }
        let one = describe_one(c, fr, bases[i].as_str(), i, total, occurrence);
        match one {
            Ok(info) => {
                out.push((order[i], info));
            },
            Err(e) => {
                proof {
                    assert(failure_at(cands@, order@, i as int) == Some((e.spec_operation(), e.spec_detail())));
                }
                return Err(e);
            },
        }
        i = i + 1;
    }
    Ok(out)
}

/// The ordering keys of the displays.
pub open spec fn keys_of(cands: Seq<DisplayCandidate>) -> Seq<KeyView> {
    cands.map_values(|c: DisplayCandidate| key_of(c))
}

/// Orders the displays by origin, size and name, and describes each one: a stable
/// identifier, numbered among displays that share an identity, and a label. Each result
/// carries the display's position in the input.
pub fn describe_monitors(cands: &[DisplayCandidate]) -> (r: Result<Vec<(usize, MonitorInfo)>, PortError>)
    ensures
        exists|order: Seq<usize>|
            sorted_stable(keys_of(cands@), order) && #[trigger] described_in_order(cands@, order, r),
{
    let mut keys: Vec<OrderKey> = Vec::new();
    let mut k: usize = 0;
    while k < cands.len()
        invariant
            k <= cands.len(),
            keys.len() == k,
            forall|i: int| 0 <= i < k ==> (#[trigger] keys@[i])@ == key_of(cands@[i]),
        decreases cands.len() - k,
    {
        let c = &cands[k];
        keys.push(OrderKey { x: c.x, y: c.y, width: c.width, height: c.height, name: friendly_name(c.name.as_str()) });
        k = k + 1;
    }
    let order = sort_order(keys.as_slice());
    proof {
        assert(keys@.map_values(|k: OrderKey| k@) =~= keys_of(cands@));
    }
    let r = describe_in_order(cands, order.as_slice());
    assert(sorted_stable(keys_of(cands@), order@) && described_in_order(cands@, order@, r));
    r
}

/// Turns the pixels captured from the selected display into a frame labelled with that
/// display; a capture whose size differs from the display's is refused.
pub fn frame_for_display(selected: &MonitorInfo, width: u32, height: u32, pixels: Vec<u8>) -> (r: Result<
    CapturedFrame,
    PortError,
>)
    ensures
        (width != selected.width || height != selected.height) ==> (r matches Err(e)
            && e.spec_operation() == "capture_dimensions"@ && e.spec_detail()
            == "captured physical dimensions did not match the selected display"@),
        (width == selected.width && height == selected.height) ==> match packed_check(
            width,
            height,
            pixels.len(),
        ) {
            Err(fe) => r matches Err(e) && e.spec_operation() == "capture_selected_monitor"@
                && e.spec_detail() == frame_error_text(fe),
            Ok(_) => r matches Ok(f) && f.holds(width, height, (width * 4) as usize, pixels@)
                && f.spec_label() == (if trim_seq(selected.label@).len() > 0 {
                Some(selected.label@)
            } else {
                None::<Seq<char>>
            }) && f.spec_scale() == (if selected.scale_factor_percent > 0 {
                Some(selected.scale_factor_percent)
            } else {
                None::<u32>
            }),
        },
{
    if width != selected.width || height != selected.height {
        return Err(
            PortError::new(
                "capture_dimensions",
                "captured physical dimensions did not match the selected display",
            ),
        );
    }
    let label = selected.label.clone();
    match CapturedFrame::rgba8_with_metadata(
        width,
        height,
        pixels,
        Some(label),
        Some(selected.scale_factor_percent),
    ) {
        Ok(frame) => Ok(frame),
        Err(e) => {
            let detail = e.to_string();
            Err(PortError::new("capture_selected_monitor", detail.as_str()))
        },
    }
}

} // verus!
