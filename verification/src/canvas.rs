//! Canvas references and exclusively owned canvases, with the
//! engine's deterministic markup rendering.
//!
//! A circle drawn on a markup canvas appends one ellipse element with
//! the paint's colour and the circle's geometry written in decimal;
//! a null canvas swallows the call.

use vstd::prelude::*;

use crate::engine::Engine;
use crate::native::CanvasKind;
use crate::native::NativeCanvas;
use crate::paint::Paint;
use crate::point::Point;
use crate::scalar;
use crate::Color;

verus! {

/// A non-owning reference to a native canvas.
#[derive(Clone, Copy, PartialEq, Eq, Structural, Debug)]
pub struct Canvas {
    /// Pointer to the canvas object.
    pub ptr: usize,
}

/// An exclusively owned canvas: dropping it destroys the canvas.
pub struct OwnedCanvas {
    /// The canvas owned.
    pub canvas: Canvas,
}

/// The decimal digit characters of a non-negative number.
pub open spec fn dec_digits(n: int) -> Seq<char>
    decreases n,
{
    if n < 0 {
        Seq::empty()
    } else if n < 10 {
        seq![digit_char(n)]
    } else {
        dec_digits(n / 10).push(digit_char(n % 10))
    }
}

/// The decimal digits of a number of either sign.
pub open spec fn signed_dec_digits(n: int) -> Seq<char> {
    if n < 0 {
        seq!['-'] + dec_digits(-n)
    } else {
        dec_digits(n)
    }
}

/// The character of one decimal digit.
pub open spec fn digit_char(d: int) -> char {
    if d == 0 {
        '0'
    } else if d == 1 {
        '1'
    } else if d == 2 {
        '2'
    } else if d == 3 {
        '3'
    } else if d == 4 {
        '4'
    } else if d == 5 {
        '5'
    } else if d == 6 {
        '6'
    } else if d == 7 {
        '7'
    } else if d == 8 {
        '8'
    } else {
        '9'
    }
}

/// The markup one circle renders to: an ellipse element carrying the
/// paint's colour and the circle's geometry.
pub open spec fn ellipse_markup(color: Color, cx: scalar, cy: scalar, radius: scalar) -> Seq<
    char,
> {
    "<ellipse fill=\"rgb("@ + dec_digits(((color >> 16) & 0xff) as int) + ","@ + dec_digits(
        ((color >> 8) & 0xff) as int,
    ) + ","@ + dec_digits((color & 0xff) as int) + ")\" stroke=\"none\" cx=\""@ + signed_dec_digits(
        cx as int,
    ) + "\" cy=\""@ + signed_dec_digits(cy as int) + "\" rx=\""@ + signed_dec_digits(radius as int)
        + "\" ry=\""@ + signed_dec_digits(radius as int) + "\"/>"@
}

impl Canvas {
    /// The reference points at a live canvas of `e`.
    pub open spec fn is_valid(self, e: Engine<NativeCanvas>) -> bool {
        e.is_live(self.ptr)
    }

    /// The canvas object in `e`.
    pub open spec fn value_in(self, e: Engine<NativeCanvas>) -> NativeCanvas {
        e.value_of(self.ptr)
    }

    /// Draws a circle.  A markup canvas appends one ellipse element;
    /// a null canvas swallows the call.
    pub fn draw_circle(
        &self,
        center: Point,
        radius: scalar,
        paint: &Paint,
        e: &mut Engine<NativeCanvas>,
    ) -> (appended: bool)
        requires
            old(e).wf(),
            self.is_valid(*old(e)),
            center.x > i32::MIN,
            center.y > i32::MIN,
            radius > i32::MIN,
        ensures
            final(e).wf(),
            appended == (self.value_in(*old(e)).kind is Svg),
            !appended ==> *final(e) == *old(e),
            appended ==> final(e).slots@.len() == old(e).slots@.len() && (forall|j: int|
                0 <= j < old(e).slots@.len() && j != self.ptr - 1 ==> final(e).slots@[j] == old(
                    e,
                ).slots@[j]) && final(e).is_live(self.ptr) && final(e).count_of(self.ptr) == old(
                e,
            ).count_of(self.ptr) && final(e).value_of(self.ptr).kind is Svg && final(e).value_of(
                self.ptr,
            ).buf@ == self.value_in(*old(e)).buf@ + ellipse_markup(
                paint.n.color,
                center.x,
                center.y,
                radius,
            ),
    {
        let is_svg = match e.get(self.ptr).kind {
            CanvasKind::Svg => true,
            CanvasKind::Null => false,
        };
        if is_svg {
            let color = paint.n.color;
            let mut buf = e.get(self.ptr).buf.clone();
            buf.append("<ellipse fill=\"rgb(");
            append_dec(&mut buf, (color >> 16) & 0xff);
            buf.append(",");
            append_dec(&mut buf, (color >> 8) & 0xff);
            buf.append(",");
            append_dec(&mut buf, color & 0xff);
            buf.append(")\" stroke=\"none\" cx=\"");
            append_signed_dec(&mut buf, center.x);
            buf.append("\" cy=\"");
            append_signed_dec(&mut buf, center.y);
            buf.append("\" rx=\"");
            append_signed_dec(&mut buf, radius);
            buf.append("\" ry=\"");
            append_signed_dec(&mut buf, radius);
            buf.append("\"/>");
            proof {
                assert(buf@ =~= self.value_in(*old(e)).buf@ + ellipse_markup(
                    paint.n.color,
                    center.x,
                    center.y,
                    radius,
                ));
            }
            e.set_value(self.ptr, NativeCanvas { kind: CanvasKind::Svg, buf });
            true
        } else {
            false
        }
    }
}

impl OwnedCanvas {
    /// The owned canvas points at a live canvas of `e`.
    pub open spec fn is_valid(self, e: Engine<NativeCanvas>) -> bool {
        self.canvas.is_valid(e)
    }

    /// A reference to the owned canvas.
    pub fn canvas(&self) -> (r: &Canvas)
        ensures
            r == self.canvas,
    {
        &self.canvas
    }

    /// Tears the canvas down: gives the one reference back, which
    /// destroys the canvas.  Runs at most once, because it consumes
    /// the handle.
    pub fn drop_handle(self, e: &mut Engine<NativeCanvas>)
        requires
            old(e).wf(),
            self.is_valid(*old(e)),
        ensures
            final(e).wf(),
            final(e).slots@ == old(e).released(self.canvas.ptr),
            old(e).count_of(self.canvas.ptr) == 1 ==> !final(e).is_live(self.canvas.ptr),
    {
        e.release(self.canvas.ptr);
    }
}

/// Appends one decimal digit.
fn append_digit(s: &mut String, d: u32)
    requires
        d < 10,
    ensures
        final(s)@ == old(s)@ + seq![digit_char(d as int)],
{
    if d == 0 {
        s.append("0");
        proof {
            reveal_strlit("0");
            assert("0"@ =~= seq![digit_char(0int)]);
        }
    } else if d == 1 {
        s.append("1");
        proof {
            reveal_strlit("1");
            assert("1"@ =~= seq![digit_char(1int)]);
        }
    } else if d == 2 {
        s.append("2");
        proof {
            reveal_strlit("2");
            assert("2"@ =~= seq![digit_char(2int)]);
        }
    } else if d == 3 {
        s.append("3");
        proof {
            reveal_strlit("3");
            assert("3"@ =~= seq![digit_char(3int)]);
        }
    } else if d == 4 {
        s.append("4");
        proof {
            reveal_strlit("4");
            assert("4"@ =~= seq![digit_char(4int)]);
        }
    } else if d == 5 {
        s.append("5");
        proof {
            reveal_strlit("5");
            assert("5"@ =~= seq![digit_char(5int)]);
        }
    } else if d == 6 {
        s.append("6");
        proof {
            reveal_strlit("6");
            assert("6"@ =~= seq![digit_char(6int)]);
        }
    } else if d == 7 {
        s.append("7");
        proof {
            reveal_strlit("7");
            assert("7"@ =~= seq![digit_char(7int)]);
        }
    } else if d == 8 {
        s.append("8");
        proof {
            reveal_strlit("8");
            assert("8"@ =~= seq![digit_char(8int)]);
        }
    } else {
        s.append("9");
        proof {
            reveal_strlit("9");
            assert("9"@ =~= seq![digit_char(9int)]);
        }
    }
}

/// Appends a non-negative number in decimal.
pub fn append_dec(s: &mut String, n: u32)
    ensures
        final(s)@ == old(s)@ + dec_digits(n as int),
    decreases n,
{
    if n >= 10 {
        proof {
            assert(n / 10 < n) by (nonlinear_arith)
                requires
                    n >= 10,
            ;
        }
        append_dec(s, n / 10);
        append_digit(s, n % 10);
        proof {
            assert(dec_digits((n / 10) as int) + seq![digit_char((n % 10) as int)] =~= dec_digits(
                n as int,
            ));
            assert(s@ =~= old(s)@ + dec_digits(n as int));
        }
    } else {
        append_digit(s, n);
    }
}

/// Appends a number of either sign in decimal.
pub fn append_signed_dec(s: &mut String, n: i32)
    requires
        n > i32::MIN,
    ensures
        final(s)@ == old(s)@ + signed_dec_digits(n as int),
{
    if n < 0 {
        s.append("-");
        append_dec(s, (-n) as u32);
        proof {
            reveal_strlit("-");
            assert("-"@ =~= seq!['-']);
            assert(s@ =~= old(s)@ + signed_dec_digits(n as int));
        }
    } else {
        append_dec(s, n as u32);
    }
}

} // verus!
