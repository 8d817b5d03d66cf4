//! Text encodings and the engine's lenient decoding of encoded text
//! into 32-bit text units.
//!
//! The decoders are lenient: malformed input is never rejected.  An
//! eight-bit stream is scanned as UTF-8 by accumulating continuation
//! bytes onto the last leader and flushing a unit at each leader,
//! ASCII byte, or the end; sixteen- and thirty-two-bit streams are cut
//! into little-endian units, dropping a trailing partial unit.  On
//! well-formed input this yields exactly the encoded code points.

use vstd::prelude::*;

verus! {

/// How a byte stream encodes text.
#[derive(Clone, Copy, PartialEq, Eq, Structural, Debug)]
pub enum TextEncoding {
    /// Eight-bit units: UTF-8.
    UTF8,
    /// Sixteen-bit units, little endian: UTF-16.
    UTF16,
    /// Thirty-two-bit units, little endian: UTF-32.
    UTF32,
    /// Sixteen-bit units, little endian, already glyph identifiers.
    GlyphId,
}

/// The unit a pending UTF-8 accumulation flushes to, if any.
pub open spec fn flushed(pending: Option<u32>) -> Seq<u32> {
    match pending {
        Some(v) => seq![v],
        None => Seq::empty(),
    }
}

/// The payload bits a UTF-8 leader byte starts a unit with.
pub open spec fn utf8_leader_bits(b: u8) -> u32 {
    if b < 0xE0 {
        (b & 0x1F) as u32
    } else if b < 0xF0 {
        (b & 0x0F) as u32
    } else {
        (b & 0x07) as u32
    }
}

/// Lenient UTF-8 scan: the units of `s`, with `pending` the unit
/// still accumulating.
pub open spec fn utf8_scan(s: Seq<u8>, pending: Option<u32>) -> Seq<u32>
    decreases s.len(),
{
    if s.len() == 0 {
        flushed(pending)
    } else {
        let b = s[0];
        if b < 0x80 {
            flushed(pending) + seq![b as u32] + utf8_scan(s.skip(1), None)
        } else if b < 0xC0 {
            match pending {
                Some(v) => utf8_scan(s.skip(1), Some((v << 6) | ((b & 0x3F) as u32))),
                None => utf8_scan(s.skip(1), None),
            }
        } else {
            flushed(pending) + utf8_scan(s.skip(1), Some(utf8_leader_bits(b)))
        }
    }
}

/// The units of a little-endian sixteen-bit stream; a trailing odd
/// byte is dropped.
pub open spec fn units16(s: Seq<u8>) -> Seq<u32>
    decreases s.len(),
{
    if s.len() < 2 {
        Seq::empty()
    } else {
        seq![(s[0] as u32) | ((s[1] as u32) << 8)] + units16(s.skip(2))
    }
}

/// The units of a little-endian thirty-two-bit stream; a trailing
/// partial unit is dropped.
pub open spec fn units32(s: Seq<u8>) -> Seq<u32>
    decreases s.len(),
{
    if s.len() < 4 {
        Seq::empty()
    } else {
        seq![
            (s[0] as u32) | ((s[1] as u32) << 8) | ((s[2] as u32) << 16) | ((s[3] as u32) << 24),
        ] + units32(s.skip(4))
    }
}

/// The text units of an encoded byte stream.
pub open spec fn text_units(s: Seq<u8>, encoding: TextEncoding) -> Seq<u32> {
    match encoding {
        TextEncoding::UTF8 => utf8_scan(s, None),
        TextEncoding::UTF16 => units16(s),
        TextEncoding::UTF32 => units32(s),
        TextEncoding::GlyphId => units16(s),
    }
}

/// Decodes a UTF-8 stream leniently into its units.
fn decode_utf8(text: &Vec<u8>) -> (r: Vec<u32>)
    ensures
        r@ == utf8_scan(text@, None),
{
    let mut out: Vec<u32> = Vec::new();
    let mut pending: Option<u32> = None;
    let mut i: usize = 0;
    proof {
        assert(text@.skip(0) =~= text@);
        assert(out@ + utf8_scan(text@, pending) =~= utf8_scan(text@, None));
    }
    while i < text.len()
        invariant
            i <= text@.len(),
            out@ + utf8_scan(text@.skip(i as int), pending) == utf8_scan(text@, None),
        decreases text@.len() - i,
    {
        let b = text[i];
        proof {
            assert(text@.skip(i as int).skip(1) =~= text@.skip(i as int + 1));
            assert(text@.skip(i as int)[0] == text@[i as int]);
        }
        if b < 0x80 {
            match pending {
                Some(v) => out.push(v),
                None => (),
            }
            out.push(b as u32);
            pending = None;
        } else if b < 0xC0 {
            match pending {
                Some(v) => {
                    pending = Some((v << 6) | ((b & 0x3F) as u32));
                },
                None => (),
            }
        } else {
            match pending {
                Some(v) => out.push(v),
                None => (),
            }
            let bits: u32 = if b < 0xE0 {
                (b & 0x1F) as u32
            } else if b < 0xF0 {
                (b & 0x0F) as u32
            } else {
                (b & 0x07) as u32
            };
            pending = Some(bits);
        }
        i = i + 1;
        proof {
            assert(out@ + utf8_scan(text@.skip(i as int), pending) =~= utf8_scan(text@, None));
        }
    }
    match pending {
        Some(v) => out.push(v),
        None => (),
    }
    proof {
        assert(text@.skip(text@.len() as int) =~= Seq::<u8>::empty());
        assert(out@ =~= utf8_scan(text@, None));
    }
    out
}

/// Cuts a stream into little-endian units of `width` 2 or 4 bytes.
fn decode_fixed(text: &Vec<u8>, wide: bool) -> (r: Vec<u32>)
    ensures
        wide ==> r@ == units32(text@),
        !wide ==> r@ == units16(text@),
{
    let width: usize = if wide {
        4
    } else {
        2
    };
    let mut out: Vec<u32> = Vec::new();
    let mut i: usize = 0;
    proof {
        assert(text@.skip(0) =~= text@);
        if wide {
            assert(out@ + units32(text@) =~= units32(text@));
        } else {
            assert(out@ + units16(text@) =~= units16(text@));
        }
    }
    while text.len() - i >= width
        invariant
            width == (if wide {
                4int
            } else {
                2int
            }),
            i <= text@.len(),
            wide ==> out@ + units32(text@.skip(i as int)) == units32(text@),
            !wide ==> out@ + units16(text@.skip(i as int)) == units16(text@),
        decreases text@.len() - i,
    {
        let unit: u32 = if wide {
            (text[i] as u32) | ((text[i + 1] as u32) << 8) | ((text[i + 2] as u32) << 16) | ((text[i
                + 3] as u32) << 24)
        } else {
            (text[i] as u32) | ((text[i + 1] as u32) << 8)
        };
        proof {
            assert(text@.skip(i as int).skip(width as int) =~= text@.skip(i as int + width as int));
            assert(text@.skip(i as int)[0] == text@[i as int]);
            assert(text@.skip(i as int)[1] == text@[i as int + 1]);
            if wide {
                assert(text@.skip(i as int)[2] == text@[i as int + 2]);
                assert(text@.skip(i as int)[3] == text@[i as int + 3]);
            }
        }
        out.push(unit);
        i = i + width;
        proof {
            if wide {
                assert(out@ + units32(text@.skip(i as int)) =~= units32(text@));
            } else {
                assert(out@ + units16(text@.skip(i as int)) =~= units16(text@));
            }
        }
    }
    proof {
        if wide {
            assert(units32(text@.skip(i as int)) =~= Seq::<u32>::empty());
            assert(out@ =~= units32(text@));
        } else {
            assert(units16(text@.skip(i as int)) =~= Seq::<u32>::empty());
            assert(out@ =~= units16(text@));
        }
    }
    out
}

/// Decodes an encoded byte stream into its text units.
pub fn decode_units(text: &Vec<u8>, encoding: TextEncoding) -> (r: Vec<u32>)
    ensures
        r@ == text_units(text@, encoding),
{
    match encoding {
        TextEncoding::UTF8 => decode_utf8(text),
        TextEncoding::UTF16 => decode_fixed(text, false),
        TextEncoding::UTF32 => decode_fixed(text, true),
        TextEncoding::GlyphId => decode_fixed(text, false),
    }
}

} // verus!
