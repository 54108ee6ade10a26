use vstd::prelude::*;
use vstd::string::StringExecFns;

verus! {

pub open spec fn digit_char(d: int) -> char {
    seq!['0', '1', '2', '3', '4', '5', '6', '7', '8', '9'][d]
}

/// Decimal digits of `n`, without leading zeros.
pub open spec fn digits(n: nat) -> Seq<char>
    decreases n,
{
    if n < 10 {
        seq![digit_char(n as int)]
    } else {
        digits(n / 10) + seq![digit_char((n % 10) as int)]
    }
}

/// The number `t / 2` as a decimal: a minus sign when negative, the whole
/// part, and `.5` when `t` is odd (`-3` gives `-1.5`, `4` gives `2`).
pub open spec fn half_text(t: int) -> Seq<char> {
    let a = if t < 0 {
        -t
    } else {
        t
    };
    let sign = if t < 0 {
        seq!['-']
    } else {
        Seq::<char>::empty()
    };
    if a % 2 == 0 {
        sign + digits((a / 2) as nat)
    } else {
        sign + digits((a / 2) as nat) + ".5"@
    }
}

/// Rotation and scale for the panel's interaction state.
pub open spec fn preset(is_dragging: bool, is_hovering: bool) -> Seq<char> {
    if is_dragging {
        "rotateX(3deg) rotateY(-2deg) scale(0.995)"@
    } else if is_hovering {
        "rotateX(3deg) rotateY(-2deg) scale(1.02)"@
    } else {
        "rotateX(2deg) rotateY(-1deg)"@
    }
}

/// The transform descriptor of a panel whose center is at
/// `(position_x, position_y)` half pixels: a fixed perspective, a translation
/// to its top left corner (`position / 2 - size / 2` pixels), and the preset
/// for its interaction state.
pub open spec fn transform_text(
    position_x: int,
    position_y: int,
    glass_width: int,
    glass_height: int,
    is_dragging: bool,
    is_hovering: bool,
) -> Seq<char> {
    "perspective(1500px) translate3d("@ + half_text(position_x - glass_width) + "px, "@
        + half_text(position_y - glass_height) + "px, 0) "@ + preset(is_dragging, is_hovering)
}

fn digit_str(d: u128) -> (r: &'static str)
    requires
        d < 10,
    ensures
        r@ == seq![digit_char(d as int)],
{
    proof {
        reveal_strlit("0");
        reveal_strlit("1");
        reveal_strlit("2");
        reveal_strlit("3");
        reveal_strlit("4");
        reveal_strlit("5");
        reveal_strlit("6");
        reveal_strlit("7");
        reveal_strlit("8");
        reveal_strlit("9");
    }
    if d == 0 {
        "0"
    } else if d == 1 {
        "1"
    } else if d == 2 {
        "2"
    } else if d == 3 {
        "3"
    } else if d == 4 {
        "4"
    } else if d == 5 {
        "5"
    } else if d == 6 {
        "6"
    } else if d == 7 {
        "7"
    } else if d == 8 {
        "8"
    } else {
        "9"
    }
}

fn push_digits(out: &mut String, n: u128)
    ensures
        final(out)@ == old(out)@ + digits(n as nat),
    decreases n,
{
    if n >= 10 {
        push_digits(out, n / 10);
    }
    out.append(digit_str(n % 10));
    proof {
        if n < 10 {
            assert(n % 10 == n);
        }
    }
}

/// Appends `t / 2` as `half_text` writes it.
fn push_half(out: &mut String, t: i128)
    requires
        t > i128::MIN,
    ensures
        final(out)@ == old(out)@ + half_text(t as int),
{
    let a: u128 = if t < 0 {
        (-t) as u128
    } else {
        t as u128
    };
    if t < 0 {
        out.append("-");
    }
    push_digits(out, a / 2);
    if a % 2 == 1 {
        out.append(".5");
    }
    proof {
        reveal_strlit("-");
        if t < 0 {
            assert(final(out)@ =~= old(out)@ + half_text(t as int)) by {
                assert(seq!['-'] =~= "-"@);
            }
        }
    }
}

/// The CSS-style transform for a panel: perspective, translation of its top
/// left corner, and a rotation preset (scaled down while dragged, up while
/// hovered, a plain tilt otherwise). The position is in half pixels, as
/// `GlassState` keeps it; the sizes are whole pixels.
pub fn calculate_transform_matrix(
    position_x: i64,
    position_y: i64,
    glass_width: u32,
    glass_height: u32,
    is_dragging: bool,
    is_hovering: bool,
) -> (r: String)
    ensures
        r@ == transform_text(
            position_x as int,
            position_y as int,
            glass_width as int,
            glass_height as int,
            is_dragging,
            is_hovering,
        ),
{
    let mut out = String::from_str("perspective(1500px) translate3d(");
    push_half(&mut out, position_x as i128 - glass_width as i128);
    out.append("px, ");
    push_half(&mut out, position_y as i128 - glass_height as i128);
    out.append("px, 0) ");
    let rotation = if is_dragging {
        "rotateX(3deg) rotateY(-2deg) scale(0.995)"
    } else if is_hovering {
        "rotateX(3deg) rotateY(-2deg) scale(1.02)"
    } else {
        "rotateX(2deg) rotateY(-1deg)"
    };
    out.append(rotation);
    out
}

} // verus!
