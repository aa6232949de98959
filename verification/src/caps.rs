//! Capability bitmasks: which event types, keys and axes a device
//! declares, as the 64-bit groups sysfs prints them in.

use vstd::prelude::*;
use vstd::string::StringExecFns;
use crate::joystick::axis_kinds;
use crate::protocol::{Axis, AxisConfig, Button, DeviceConfig, DeviceConfigView};
use crate::text::{hex, push_hex};

verus! {

/// Number of 64-bit groups of the key bitmask (768 bits).
pub const KEY_GROUPS: usize = 12;

/// 2 to the power `n`.
pub open spec fn two_pow(n: nat) -> nat
    decreases n,
{
    if n == 0 {
        1
    } else {
        2 * two_pow((n - 1) as nat)
    }
}

/// The key codes a configuration declares.
pub open spec fn key_codes(config: DeviceConfigView) -> Seq<u16> {
    config.buttons.map(|i: int, b: Button| b.spec_to_ev_code())
}

/// The axis codes a configuration declares.
pub open spec fn abs_codes(config: DeviceConfigView) -> Seq<u16> {
    config.axes.map(|i: int, a: AxisConfig| a.axis.spec_to_ev_code())
}

/// The value of the low `n` bits of unit `unit` of a bitmask cut into
/// units of `width` bits: bit `j` is set exactly where code
/// `width * unit + j` is among `codes`.
pub open spec fn unit_bits(codes: Seq<u16>, width: nat, unit: nat, n: nat) -> nat
    decreases n,
{
    if n == 0 {
        0
    } else {
        unit_bits(codes, width, unit, (n - 1) as nat) + if width * unit + n - 1 <= u16::MAX
            && codes.contains((width * unit + n - 1) as u16) {
            two_pow((n - 1) as nat)
        } else {
            0
        }
    }
}

/// The value of 64-bit group `group` of the bitmask of `codes`.
pub open spec fn group_value(codes: Seq<u16>, group: nat) -> nat {
    unit_bits(codes, 64, group, 64)
}

/// The value of byte `byte` of the bitmask of `codes`.
pub open spec fn byte_value(codes: Seq<u16>, byte: nat) -> nat {
    unit_bits(codes, 8, byte, 8)
}

/// The first `n` groups of the bitmask of `codes`, lowest first.
pub open spec fn groups(codes: Seq<u16>, n: nat) -> Seq<nat> {
    Seq::new(n, |i: int| group_value(codes, i as nat))
}

/// Groups in hexadecimal, highest first, separated by one space.
pub open spec fn groups_joined(g: Seq<nat>) -> Seq<char>
    decreases g.len(),
{
    if g.len() == 0 {
        Seq::empty()
    } else if g.len() == 1 {
        hex(g[0])
    } else {
        hex(g.last()) + " "@ + groups_joined(g.drop_last())
    }
}

/// A bitmask as sysfs prints it: the groups in hexadecimal, highest
/// first, without the zero groups in front; `0` where every group is zero.
pub open spec fn groups_text(g: Seq<nat>) -> Seq<char>
    decreases g.len(),
{
    if g.len() == 0 {
        "0"@
    } else if g.last() == 0 {
        groups_text(g.drop_last())
    } else {
        groups_joined(g)
    }
}

/// The event types of a device: synchronization always, keys where it has
/// a button, absolute axes where it has an axis, force feedback where it
/// advertises it.
pub open spec fn ev_mask(config: DeviceConfigView, force_feedback: bool) -> nat {
    (1 + if config.buttons.len() > 0 {
        2nat
    } else {
        0nat
    } + if config.axes.len() > 0 {
        8nat
    } else {
        0nat
    } + if force_feedback {
        0x20_0000nat
    } else {
        0nat
    }) as nat
}

/// The text of `capabilities/ev`.
pub open spec fn ev_text(config: DeviceConfigView) -> Seq<char> {
    hex(ev_mask(config, false))
}

/// The text of `capabilities/key`.
pub open spec fn key_text(config: DeviceConfigView) -> Seq<char> {
    groups_text(groups(key_codes(config), 12))
}

/// The text of `capabilities/abs`: one group, for the codes below 64.
pub open spec fn abs_text(config: DeviceConfigView) -> Seq<char> {
    hex(group_value(abs_codes(config), 0))
}

/// The low `n` bits of a unit are a number below `2^n`.
pub proof fn lemma_unit_bits_bound(codes: Seq<u16>, width: nat, unit: nat, n: nat)
    ensures
        unit_bits(codes, width, unit, n) < two_pow(n),
    decreases n,
{
    if n > 0 {
        lemma_unit_bits_bound(codes, width, unit, (n - 1) as nat);
    }
}

/// A unit that starts beyond the largest code has no bit set.
pub proof fn lemma_unit_beyond_codes(codes: Seq<u16>, width: nat, unit: nat, n: nat)
    requires
        width * unit > u16::MAX,
    ensures
        unit_bits(codes, width, unit, n) == 0,
    decreases n,
{
    if n > 0 {
        lemma_unit_beyond_codes(codes, width, unit, (n - 1) as nat);
    }
}

/// `2^64` is one more than the largest 64-bit number.
pub proof fn lemma_two_pow_64()
    ensures
        two_pow(64) == 0x1_0000_0000_0000_0000,
        two_pow(63) == 0x8000_0000_0000_0000,
{
    assert(two_pow(8) == 0x100) by {
        reveal_with_fuel(two_pow, 9);
    }
    assert(two_pow(16) == 0x1_0000) by {
        lemma_two_pow_add(8, 8);
    }
    assert(two_pow(32) == 0x1_0000_0000) by {
        lemma_two_pow_add(16, 16);
    }
    assert(two_pow(63) == 0x8000_0000_0000_0000) by {
        lemma_two_pow_add(16, 8);
        lemma_two_pow_add(24, 7);
        assert(two_pow(7) == 0x80) by {
            reveal_with_fuel(two_pow, 8);
        }
        lemma_two_pow_add(32, 31);
    }
}

/// `2^(a+b)` is `2^a * 2^b`.
pub proof fn lemma_two_pow_add(a: nat, b: nat)
    ensures
        two_pow(a + b) == two_pow(a) * two_pow(b),
    decreases b,
{
    if b == 0 {
        assert(two_pow(a) * 1 == two_pow(a));
    } else {
        lemma_two_pow_add(a, (b - 1) as nat);
        assert(two_pow(a + b) == 2 * two_pow((a + b - 1) as nat));
        assert(2 * (two_pow(a) * two_pow((b - 1) as nat)) == two_pow(a) * (2 * two_pow(
            (b - 1) as nat,
        ))) by (nonlinear_arith);
    }
}

/// A set bit means a declared code, and a declared code a set bit: the
/// low `n + 1` bits of a unit differ from the low `n` bits by `2^n`
/// exactly where code `width * unit + n` is declared.
pub proof fn lemma_bit_means_code(codes: Seq<u16>, width: nat, unit: nat, n: nat)
    requires
        width * unit + n <= u16::MAX,
    ensures
        unit_bits(codes, width, unit, n + 1) == unit_bits(codes, width, unit, n) + two_pow(n)
            <==> codes.contains((width * unit + n) as u16),
        unit_bits(codes, width, unit, n + 1) == unit_bits(codes, width, unit, n)
            <==> !codes.contains((width * unit + n) as u16),
{
    assert(two_pow(n) > 0) by {
        lemma_two_pow_positive(n);
    }
}

/// Every power of two is positive.
pub proof fn lemma_two_pow_positive(n: nat)
    ensures
        two_pow(n) > 0,
    decreases n,
{
    if n > 0 {
        lemma_two_pow_positive((n - 1) as nat);
    }
}

/// Whether `code` is among `codes`.
fn has_code(codes: &Vec<u16>, code: u16) -> (r: bool)
    ensures
        r == codes@.contains(code),
{
    let mut i: usize = 0;
    while i < codes.len()
        invariant
            i <= codes.len(),
            forall|k: int| 0 <= k < i ==> codes@[k] != code,
        decreases codes.len() - i,
    {
        if codes[i] == code {
            return true;
        }
        i = i + 1;
    }
    false
}

/// The value of one unit of `width` bits of the bitmask of `codes`.
pub fn compute_unit(codes: &Vec<u16>, width: usize, unit: usize) -> (value: u64)
    requires
        1 <= width <= 64,
    ensures
        value == unit_bits(codes@, width as nat, unit as nat, width as nat),
        value < two_pow(width as nat),
{
    if unit > 0x1_0000 {
        proof {
            assert(width * unit > u16::MAX) by (nonlinear_arith)
                requires
                    width >= 1,
                    unit > 0x1_0000,
            ;
            lemma_unit_beyond_codes(codes@, width as nat, unit as nat, width as nat);
            lemma_two_pow_positive(width as nat);
        }
        return 0;
    }
    let mut value: u64 = 0;
    let mut power: u64 = 1;
    let mut j: usize = 0;
    while j < width
        invariant
            j <= width,
            1 <= width <= 64,
            unit <= 0x1_0000,
            value == unit_bits(codes@, width as nat, unit as nat, j as nat),
            j < 64 ==> power == two_pow(j as nat),
        decreases width - j,
    {
        proof {
            lemma_unit_bits_bound(codes@, width as nat, unit as nat, j as nat);
            lemma_two_pow_64();
            lemma_two_pow_add(j as nat, (63 - j) as nat);
            lemma_two_pow_positive((63 - j) as nat);
            assert(two_pow(j as nat) <= two_pow(63)) by (nonlinear_arith)
                requires
                    two_pow(63) == two_pow(j as nat) * two_pow((63 - j) as nat),
                    two_pow((63 - j) as nat) > 0,
                    two_pow(j as nat) >= 0,
            ;
            assert(width * unit <= 64 * 0x1_0000) by (nonlinear_arith)
                requires
                    width <= 64,
                    unit <= 0x1_0000,
            ;
        }
        let code: usize = width * unit + j;
        if code <= 0xffff && has_code(codes, code as u16) {
            value = value + power;
        }
        if j < 63 {
            power = power * 2;
        }
        j = j + 1;
    }
    proof {
        lemma_unit_bits_bound(codes@, width as nat, unit as nat, width as nat);
    }
    value
}

/// The value of one 64-bit group of the bitmask of `codes`.
pub fn compute_group(codes: &Vec<u16>, group: usize) -> (value: u64)
    ensures
        value == group_value(codes@, group as nat),
{
    compute_unit(codes, 64, group)
}

/// The value of one byte of the bitmask of `codes`.
pub fn compute_byte(codes: &Vec<u16>, byte: usize) -> (value: u8)
    ensures
        value == byte_value(codes@, byte as nat),
{
    let v = compute_unit(codes, 8, byte);
    proof {
        assert(two_pow(8) == 0x100) by {
            reveal_with_fuel(two_pow, 9);
        }
    }
    v as u8
}

/// The codes of a list of buttons.
pub fn button_codes(buttons: &Vec<Button>) -> (codes: Vec<u16>)
    ensures
        codes@ == buttons@.map(|i: int, b: Button| b.spec_to_ev_code()),
{
    let mut codes: Vec<u16> = Vec::new();
    let mut i: usize = 0;
    while i < buttons.len()
        invariant
            i <= buttons.len(),
            codes@.len() == i,
            forall|k: int| 0 <= k < i ==> codes@[k] == buttons@[k].spec_to_ev_code(),
        decreases buttons.len() - i,
    {
        codes.push(buttons[i].to_ev_code());
        i = i + 1;
    }
    assert(codes@ =~= buttons@.map(|i: int, b: Button| b.spec_to_ev_code()));
    codes
}

/// The codes of a list of axes.
pub fn axis_codes(axes: &Vec<AxisConfig>) -> (codes: Vec<u16>)
    ensures
        codes@ == axes@.map(|i: int, a: AxisConfig| a.axis.spec_to_ev_code()),
{
    let mut codes: Vec<u16> = Vec::new();
    let mut i: usize = 0;
    while i < axes.len()
        invariant
            i <= axes.len(),
            codes@.len() == i,
            forall|k: int| 0 <= k < i ==> codes@[k] == axes@[k].axis.spec_to_ev_code(),
        decreases axes.len() - i,
    {
        codes.push(axes[i].axis.to_ev_code());
        i = i + 1;
    }
    assert(codes@ =~= axes@.map(|i: int, a: AxisConfig| a.axis.spec_to_ev_code()));
    codes
}

/// The first `n` groups of the bitmask of `codes`, lowest first.
pub fn compute_groups(codes: &Vec<u16>, n: usize) -> (out: Vec<u64>)
    ensures
        out@.len() == n,
        forall|i: int| 0 <= i < n ==> out@[i] as nat == #[trigger] groups(codes@, n as nat)[i],
{
    let mut out: Vec<u64> = Vec::new();
    let mut i: usize = 0;
    while i < n
        invariant
            i <= n,
            out@.len() == i,
            forall|k: int| 0 <= k < i ==> out@[k] as nat == group_value(codes@, k as nat),
        decreases n - i,
    {
        out.push(compute_group(codes, i));
        i = i + 1;
    }
    out
}

/// The numbers of a list of groups.
pub open spec fn as_nats(g: Seq<u64>) -> Seq<nat> {
    g.map(|i: int, x: u64| x as nat)
}

/// A bitmask as sysfs prints it.
pub fn format_groups(g: &Vec<u64>) -> (s: String)
    ensures
        s@ == groups_text(as_nats(g@)),
{
    let ghost all = as_nats(g@);
    let mut top: usize = g.len();
    assert(all.subrange(0, top as int) =~= all);
    while top > 0 && g[top - 1] == 0
        invariant
            top <= g.len(),
            all == as_nats(g@),
            groups_text(all) == groups_text(all.subrange(0, top as int)),
        decreases top,
    {
        proof {
            let cur = all.subrange(0, top as int);
            assert(cur.last() == 0);
            assert(cur.drop_last() =~= all.subrange(0, top - 1));
        }
        top = top - 1;
    }
    let mut s = String::new();
    if top == 0 {
        s.append("0");
        assert(all.subrange(0, 0).len() == 0);
        assert(s@ =~= "0"@);
        return s;
    }
    proof {
        let cur = all.subrange(0, top as int);
        assert(cur.last() == g@[top - 1] as nat);
        assert(cur.last() != 0);
    }
    // Print from the lowest group up, each in front of what is there.
    let mut k: usize = 0;
    while k < top
        invariant
            k <= top,
            top <= g.len(),
            all == as_nats(g@),
            s@ == groups_joined(all.subrange(0, k as int)),
        decreases top - k,
    {
        let mut piece = String::new();
        push_hex(&mut piece, g[k]);
        proof {
            let next = all.subrange(0, k + 1);
            assert(next.drop_last() =~= all.subrange(0, k as int));
            assert(next.last() == g@[k as int] as nat);
            assert(piece@ =~= hex(g@[k as int] as nat));
        }
        if k > 0 {
            piece.append(" ");
            piece.append(s.as_str());
        }
        s = piece;
        k = k + 1;
    }
    s
}

} // verus!
