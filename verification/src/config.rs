//! Resolving a render pass's configuration from raw textual input values.
//!
//! The unverified shell reads the host page's input slots and hands their raw
//! contents over as optional strings; resolution parses them and fails hard —
//! no partial rendering — on the first slot that is absent or malformed.

use crate::channel::{channel_text_wf, channel_valid, channel_value_spec, parse_channel_value};
use crate::colors::{color_valid, Color};
use crate::errors::{InputFault, InputField, RenderError};
use crate::numerals::{
    digits_value, lemma_digits_prefix_le, lemma_digits_value_extend, seq_all_digits,
};
use vstd::prelude::*;

verus! {

/// The raw contents of the seven input slots, in the order the pass resolves
/// them; an absent slot is `None`.
#[derive(Debug)]
pub struct RawInputs {
    pub background_red: Option<String>,
    pub background_green: Option<String>,
    pub background_blue: Option<String>,
    pub shape_red: Option<String>,
    pub shape_green: Option<String>,
    pub shape_blue: Option<String>,
    pub vertex_count: Option<String>,
}

/// A render pass's resolved configuration.
#[derive(Clone, Copy, PartialEq, Eq, Structural, Debug)]
pub struct RenderConfig {
    pub background: Color,
    pub shape: Color,
    pub vertex_count: u32,
}

/// Whether a vertex-count numeral is well formed: one or more decimal digits
/// whose value fits the count's machine type.
pub open spec fn vertex_count_wf(s: Seq<char>) -> bool {
    s.len() >= 1 && seq_all_digits(s) && digits_value(s) <= u32::MAX as int
}

/// Parses a vertex count: one or more decimal digits.  Returns the exact
/// value when the text matches the grammar and its value fits, and nothing
/// otherwise.
pub fn parse_vertex_count(s: &str) -> (r: Option<u32>)
    ensures
        r is Some <==> vertex_count_wf(s@),
        r matches Some(v) ==> v as int == digits_value(s@),
{
    let len = s.unicode_len();
    if len == 0 {
        return None;
    }
    let mut acc: u64 = 0;
    let mut i: usize = 0;
    proof {
        assert(s@.subrange(0, 0) =~= Seq::<char>::empty());
    }
    while i < len
        invariant
            0 <= i <= len,
            len == s@.len(),
            seq_all_digits(s@.subrange(0, i as int)),
            acc as int == digits_value(s@.subrange(0, i as int)),
            acc <= u32::MAX,
        decreases len - i,
    {
        let ch = s.get_char(i);
        let code = ch as u32;
        if code < 48 || code > 57 {
            proof {
                assert(!seq_all_digits(s@));
            }
            return None;
        }
        let d = (code - 48) as u64;
        proof {
            lemma_digits_value_extend(s@, 0, i as int);
        }
        acc = acc * 10 + d;
        proof {
            assert(seq_all_digits(s@.subrange(0, i + 1)));
        }
        i = i + 1;
        if acc > 0xffff_ffff {
            proof {
                if seq_all_digits(s@) {
                    lemma_digits_prefix_le(s@, i as int);
                }
            }
            return None;
        }
    }
    proof {
        assert(s@.subrange(0, len as int) =~= s@);
    }
    Some(acc as u32)
}

/// The fault, if any, in a raw channel input: absent, or not a channel
/// numeral.
pub open spec fn channel_input_fault(o: Option<String>) -> Option<InputFault> {
    match o {
        None => Some(InputFault::Missing),
        Some(s) => if channel_text_wf(s@) {
            None
        } else {
            Some(InputFault::Malformed)
        },
    }
}

/// The fault, if any, in the raw vertex-count input.
pub open spec fn count_input_fault(o: Option<String>) -> Option<InputFault> {
    match o {
        None => Some(InputFault::Missing),
        Some(s) => if vertex_count_wf(s@) {
            None
        } else {
            Some(InputFault::Malformed)
        },
    }
}

/// The first fault among the seven inputs, in resolution order: background
/// channels, then shape channels, then the vertex count.
pub open spec fn first_resolution_fault(raw: RawInputs) -> Option<(InputFault, InputField)> {
    if channel_input_fault(raw.background_red) is Some {
        Some((channel_input_fault(raw.background_red)->0, InputField::BackgroundRed))
    } else if channel_input_fault(raw.background_green) is Some {
        Some((channel_input_fault(raw.background_green)->0, InputField::BackgroundGreen))
    } else if channel_input_fault(raw.background_blue) is Some {
        Some((channel_input_fault(raw.background_blue)->0, InputField::BackgroundBlue))
    } else if channel_input_fault(raw.shape_red) is Some {
        Some((channel_input_fault(raw.shape_red)->0, InputField::ShapeRed))
    } else if channel_input_fault(raw.shape_green) is Some {
        Some((channel_input_fault(raw.shape_green)->0, InputField::ShapeGreen))
    } else if channel_input_fault(raw.shape_blue) is Some {
        Some((channel_input_fault(raw.shape_blue)->0, InputField::ShapeBlue))
    } else if count_input_fault(raw.vertex_count) is Some {
        Some((count_input_fault(raw.vertex_count)->0, InputField::VertexCount))
    } else {
        None
    }
}

/// Whether `cfg` is the configuration that resolving `raw` yields: every slot
/// parses and every field carries its slot's exact value.
pub open spec fn config_resolves(raw: RawInputs, cfg: RenderConfig) -> bool {
    &&& first_resolution_fault(raw) is None
    &&& (raw.background_red matches Some(s) && cfg.background.red as int == channel_value_spec(s@))
    &&& (raw.background_green matches Some(s) && cfg.background.green as int == channel_value_spec(
        s@,
    ))
    &&& (raw.background_blue matches Some(s) && cfg.background.blue as int == channel_value_spec(
        s@,
    ))
    &&& (raw.shape_red matches Some(s) && cfg.shape.red as int == channel_value_spec(s@))
    &&& (raw.shape_green matches Some(s) && cfg.shape.green as int == channel_value_spec(s@))
    &&& (raw.shape_blue matches Some(s) && cfg.shape.blue as int == channel_value_spec(s@))
    &&& (raw.vertex_count matches Some(s) && cfg.vertex_count as int == digits_value(s@))
}

/// Resolves one channel slot, naming the slot in the error.
fn resolve_channel_field(o: &Option<String>, field: InputField) -> (r: Result<i64, RenderError>)
    ensures
        r is Ok <==> channel_input_fault(*o) is None,
        r matches Ok(v) ==> (*o) matches Some(s) && v as int == channel_value_spec(s@)
            && channel_valid(v as int),
        r matches Err(e) ==> e matches RenderError::Resolution(fault, f) && f == field
            && channel_input_fault(*o) == Some(fault),
{
    match o {
        None => Err(RenderError::Resolution(InputFault::Missing, field)),
        Some(s) => match parse_channel_value(s.as_str()) {
            Some(v) => Ok(v),
            None => Err(RenderError::Resolution(InputFault::Malformed, field)),
        },
    }
}

/// Resolves the vertex-count slot.
fn resolve_count_field(o: &Option<String>) -> (r: Result<u32, RenderError>)
    ensures
        r is Ok <==> count_input_fault(*o) is None,
        r matches Ok(v) ==> (*o) matches Some(s) && v as int == digits_value(s@),
        r matches Err(e) ==> e matches RenderError::Resolution(fault, f) && f
            == InputField::VertexCount && count_input_fault(*o) == Some(fault),
{
    match o {
        None => Err(RenderError::Resolution(InputFault::Missing, InputField::VertexCount)),
        Some(s) => match parse_vertex_count(s.as_str()) {
            Some(v) => Ok(v),
            None => Err(RenderError::Resolution(InputFault::Malformed, InputField::VertexCount)),
        },
    }
}

/// Resolves the whole configuration from the raw inputs.  Succeeds exactly
/// when all seven slots are present and parse; otherwise reports the first
/// faulty slot in resolution order, and the whole pass fails.
pub fn resolve_config(raw: &RawInputs) -> (r: Result<RenderConfig, RenderError>)
    ensures
        r is Ok <==> first_resolution_fault(*raw) is None,
        r matches Ok(cfg) ==> config_resolves(*raw, cfg) && color_valid(cfg.background)
            && color_valid(cfg.shape),
        r matches Err(e) ==> e matches RenderError::Resolution(fault, field) && Some(
            (fault, field),
        ) == first_resolution_fault(*raw),
{
    let background_red = match resolve_channel_field(
        &raw.background_red,
        InputField::BackgroundRed,
    ) {
        Ok(v) => v,
        Err(e) => return Err(e),
    };
    let background_green = match resolve_channel_field(
        &raw.background_green,
        InputField::BackgroundGreen,
    ) {
        Ok(v) => v,
        Err(e) => return Err(e),
    };
    let background_blue = match resolve_channel_field(
        &raw.background_blue,
        InputField::BackgroundBlue,
    ) {
        Ok(v) => v,
        Err(e) => return Err(e),
    };
    let shape_red = match resolve_channel_field(&raw.shape_red, InputField::ShapeRed) {
        Ok(v) => v,
        Err(e) => return Err(e),
    };
    let shape_green = match resolve_channel_field(&raw.shape_green, InputField::ShapeGreen) {
        Ok(v) => v,
        Err(e) => return Err(e),
    };
    let shape_blue = match resolve_channel_field(&raw.shape_blue, InputField::ShapeBlue) {
        Ok(v) => v,
        Err(e) => return Err(e),
    };
    let vertex_count = match resolve_count_field(&raw.vertex_count) {
        Ok(v) => v,
        Err(e) => return Err(e),
    };
    Ok(
        RenderConfig {
            background: Color::new(background_red, background_green, background_blue),
            shape: Color::new(shape_red, shape_green, shape_blue),
            vertex_count,
        },
    )
}

} // verus!
