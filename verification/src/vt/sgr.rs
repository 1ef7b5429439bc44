//! `SGR` (Select Graphic Rendition) parsing.
//!
//! The parameters arrive as groups: each group is a code followed by its
//! colon-separated subparameters. `38` and `48` take their color either as
//! subparameters (`38:2::r:g:b`) or, in the legacy form, from the groups that
//! follow (`38;2;r;g;b`).

use vstd::prelude::*;

use crate::vt::attrs::{default_attrs, Attrs, Color, Flags};

verus! {

/// A parameter clamped to a color component.
pub open spec fn spec_component(value: u16) -> u8 {
    if value <= 255 { value as u8 } else { 255u8 }
}

/// The flags with `bits` set.
pub open spec fn flags_with(f: Flags, bits: u8) -> Flags {
    Flags::with_bits(f.bits() | bits)
}

/// The flags with `bits` cleared.
pub open spec fn flags_without(f: Flags, bits: u8) -> Flags {
    Flags::with_bits(f.bits() & !bits)
}

/// The color given as subparameters of `38`/`48`: `2:r:g:b`, `2:id:r:g:b` (the
/// slot being a color space) or `5:index`.
pub open spec fn spec_from_subparams(sub: Seq<u16>) -> Option<Color> {
    if sub.len() == 4 && sub[0] == 2 {
        Some(Color::Rgb(spec_component(sub[1]), spec_component(sub[2]), spec_component(sub[3])))
    } else if sub.len() == 5 && sub[0] == 2 {
        Some(Color::Rgb(spec_component(sub[2]), spec_component(sub[3]), spec_component(sub[4])))
    } else if sub.len() == 2 && sub[0] == 5 {
        Some(Color::Indexed(spec_component(sub[1])))
    } else {
        None
    }
}

/// The parameter groups as values: each group's values, in order.
pub open spec fn param_views<T>(groups: Seq<Vec<T>>) -> Seq<Seq<T>> {
    groups.map_values(|g: Vec<T>| g@)
}

/// The first value of group `j` as a component, if there is such a group and it
/// has a value.
pub open spec fn spec_component_at(ps: Seq<Seq<u16>>, j: int) -> Option<u8> {
    if 0 <= j < ps.len() && ps[j].len() > 0 {
        Some(spec_component(ps[j][0]))
    } else {
        None
    }
}

/// The legacy-form color of `38`/`48` read from the groups at `s` on, and the
/// index of the first group not consumed. Each group is consumed as it is read,
/// so a malformed color consumes the groups up to the one that failed.
pub open spec fn spec_legacy_color(ps: Seq<Seq<u16>>, s: int) -> (Option<Color>, int) {
    let len = ps.len() as int;
    if s >= len {
        (None, len)
    } else if ps[s].len() == 0 {
        (None, s + 1)
    } else if ps[s][0] == 2 {
        match spec_component_at(ps, s + 1) {
            None => (None, if len - s >= 2 { s + 2 } else { len }),
            Some(r) => match spec_component_at(ps, s + 2) {
                None => (None, if len - s >= 3 { s + 3 } else { len }),
                Some(g) => match spec_component_at(ps, s + 3) {
                    None => (None, if len - s >= 4 { s + 4 } else { len }),
                    Some(b) => (Some(Color::Rgb(r, g, b)), s + 4),
                },
            },
        }
    } else if ps[s][0] == 5 {
        match spec_component_at(ps, s + 1) {
            None => (None, if len - s >= 2 { s + 2 } else { len }),
            Some(x) => (Some(Color::Indexed(x)), s + 2),
        }
    } else {
        (None, s + 1)
    }
}

/// The rendition after a color for slot `code` (`38` foreground, `48` background).
pub open spec fn with_color(a: Attrs, code: u16, c: Option<Color>) -> Attrs {
    match c {
        None => a,
        Some(color) => if code == 38 { Attrs { fg: color, ..a } } else { Attrs { bg: color, ..a } },
    }
}

/// The rendition after one code with its subparameters.
pub open spec fn spec_apply_one(a: Attrs, code: u16, sub: Seq<u16>) -> Attrs {
    if code == 0 {
        default_attrs()
    } else if code == 1 {
        Attrs { flags: flags_with(a.flags, Flags::BOLD), ..a }
    } else if code == 2 {
        Attrs { flags: flags_with(a.flags, Flags::DIM), ..a }
    } else if code == 3 {
        Attrs { flags: flags_with(a.flags, Flags::ITALIC), ..a }
    } else if code == 4 {
        Attrs { flags: flags_with(a.flags, Flags::UNDERLINE), ..a }
    } else if code == 7 {
        Attrs { flags: flags_with(a.flags, Flags::REVERSE), ..a }
    } else if code == 8 {
        Attrs { flags: flags_with(a.flags, Flags::HIDDEN), ..a }
    } else if code == 9 {
        Attrs { flags: flags_with(a.flags, Flags::STRIKETHROUGH), ..a }
    } else if code == 21 || code == 22 {
        Attrs { flags: flags_without(flags_without(a.flags, Flags::BOLD), Flags::DIM), ..a }
    } else if code == 23 {
        Attrs { flags: flags_without(a.flags, Flags::ITALIC), ..a }
    } else if code == 24 {
        Attrs { flags: flags_without(a.flags, Flags::UNDERLINE), ..a }
    } else if code == 27 {
        Attrs { flags: flags_without(a.flags, Flags::REVERSE), ..a }
    } else if code == 28 {
        Attrs { flags: flags_without(a.flags, Flags::HIDDEN), ..a }
    } else if code == 29 {
        Attrs { flags: flags_without(a.flags, Flags::STRIKETHROUGH), ..a }
    } else if 30 <= code <= 37 {
        Attrs { fg: Color::Indexed((code - 30) as u8), ..a }
    } else if 90 <= code <= 97 {
        Attrs { fg: Color::Indexed((code - 90 + 8) as u8), ..a }
    } else if code == 39 {
        Attrs { fg: Color::Default, ..a }
    } else if 40 <= code <= 47 {
        Attrs { bg: Color::Indexed((code - 40) as u8), ..a }
    } else if 100 <= code <= 107 {
        Attrs { bg: Color::Indexed((code - 100 + 8) as u8), ..a }
    } else if code == 49 {
        Attrs { bg: Color::Default, ..a }
    } else if code == 38 || code == 48 {
        with_color(a, code, spec_from_subparams(sub))
    } else {
        a
    }
}

/// The rendition after the groups from `i` on. An empty group is skipped; `38` or
/// `48` with no subparameters reads its color from the groups that follow.
pub open spec fn spec_run(a: Attrs, ps: Seq<Seq<u16>>, i: int) -> Attrs
    decreases ps.len() - i,
    when 0 <= i
{
    if i >= ps.len() {
        a
    } else {
        let p = ps[i];
        if p.len() == 0 {
            spec_run(a, ps, i + 1)
        } else if (p[0] == 38 || p[0] == 48) && p.len() == 1 {
            proof {
                lemma_legacy_color_advances(ps, i + 1);
            }
            let (c, next) = spec_legacy_color(ps, i + 1);
            spec_run(with_color(a, p[0], c), ps, next)
        } else {
            spec_run(spec_apply_one(a, p[0], p.subrange(1, p.len() as int)), ps, i + 1)
        }
    }
}

/// The rendition after a whole `SGR` sequence. No parameters at all means `SGR 0`.
pub open spec fn spec_apply(a: Attrs, ps: Seq<Seq<u16>>) -> Attrs {
    if ps.len() == 0 {
        default_attrs()
    } else {
        spec_run(a, ps, 0)
    }
}

/// The legacy form always moves past the group it starts at, and never past the end.
pub proof fn lemma_legacy_color_advances(ps: Seq<Seq<u16>>, s: int)
    requires
        0 <= s,
    ensures
        s < ps.len() ==> s < spec_legacy_color(ps, s).1 <= ps.len(),
        s >= ps.len() ==> spec_legacy_color(ps, s).1 == ps.len(),
{
}

/// Apply an `SGR` sequence to `attrs`.
pub fn apply(attrs: &mut Attrs, params: &Vec<Vec<u16>>)
    ensures
        *final(attrs) == spec_apply(*old(attrs), param_views(params@)),
{
    if params.len() == 0 {
        attrs.reset();
        return;
    }
    let ghost start = *attrs;
    let mut i: usize = 0;
    while i < params.len()
        invariant
            i <= params@.len(),
            spec_apply(start, param_views(params@)) == spec_run(*attrs, param_views(params@), i as int),
            params@.len() > 0,
        decreases params@.len() - i,
    {
        let p = &params[i];
        if p.len() == 0 {
            i = i + 1;
        } else {
            let code = p[0];
            if (code == 38 || code == 48) && p.len() == 1 {
                proof {
                    lemma_legacy_color_advances(param_views(params@), i + 1);
                }
                let (color, next) = extended_color_legacy(params, i + 1);
                match color {
                    Some(c) => if code == 38 {
                        attrs.fg = c;
                    } else {
                        attrs.bg = c;
                    },
                    None => {},
                }
                i = next;
            } else {
                apply_one(attrs, code, p);
                i = i + 1;
            }
        }
    }
}

/// Apply one code, whose subparameters follow it in `param`.
fn apply_one(attrs: &mut Attrs, code: u16, param: &Vec<u16>)
    requires
        param@.len() >= 1,
        param@[0] == code,
    ensures
        *final(attrs) == spec_apply_one(*old(attrs), code, param@.subrange(1, param@.len() as int)),
{
    if code == 0 {
        attrs.reset();
    } else if code == 1 {
        attrs.flags.insert(Flags::BOLD);
    } else if code == 2 {
        attrs.flags.insert(Flags::DIM);
    } else if code == 3 {
        attrs.flags.insert(Flags::ITALIC);
    } else if code == 4 {
        attrs.flags.insert(Flags::UNDERLINE);
    } else if code == 7 {
        attrs.flags.insert(Flags::REVERSE);
    } else if code == 8 {
        attrs.flags.insert(Flags::HIDDEN);
    } else if code == 9 {
        attrs.flags.insert(Flags::STRIKETHROUGH);
    } else if code == 21 || code == 22 {
        attrs.flags.remove(Flags::BOLD);
        attrs.flags.remove(Flags::DIM);
    } else if code == 23 {
        attrs.flags.remove(Flags::ITALIC);
    } else if code == 24 {
        attrs.flags.remove(Flags::UNDERLINE);
    } else if code == 27 {
        attrs.flags.remove(Flags::REVERSE);
    } else if code == 28 {
        attrs.flags.remove(Flags::HIDDEN);
    } else if code == 29 {
        attrs.flags.remove(Flags::STRIKETHROUGH);
    } else if 30 <= code && code <= 37 {
        attrs.fg = Color::Indexed((code - 30) as u8);
    } else if 90 <= code && code <= 97 {
        attrs.fg = Color::Indexed((code - 90 + 8) as u8);
    } else if code == 39 {
        attrs.fg = Color::Default;
    } else if 40 <= code && code <= 47 {
        attrs.bg = Color::Indexed((code - 40) as u8);
    } else if 100 <= code && code <= 107 {
        attrs.bg = Color::Indexed((code - 100 + 8) as u8);
    } else if code == 49 {
        attrs.bg = Color::Default;
    } else if code == 38 || code == 48 {
        match from_subparams(param) {
            Some(c) => if code == 38 {
                attrs.fg = c;
            } else {
                attrs.bg = c;
            },
            None => {},
        }
    }
}

/// The color given as subparameters, which follow the code in `param`.
fn from_subparams(param: &Vec<u16>) -> (r: Option<Color>)
    requires
        param@.len() >= 1,
    ensures
        r == spec_from_subparams(param@.subrange(1, param@.len() as int)),
{
    let n = param.len();
    if n == 5 && param[1] == 2 {
        Some(Color::Rgb(component(param[2]), component(param[3]), component(param[4])))
    } else if n == 6 && param[1] == 2 {
        Some(Color::Rgb(component(param[3]), component(param[4]), component(param[5])))
    } else if n == 3 && param[1] == 5 {
        Some(Color::Indexed(component(param[2])))
    } else {
        None
    }
}

/// Read the legacy-form color from the groups at `s` on, returning it with the
/// index of the first group not consumed.
fn extended_color_legacy(params: &Vec<Vec<u16>>, s: usize) -> (r: (Option<Color>, usize))
    requires
        s <= params@.len(),
    ensures
        r.0 == spec_legacy_color(param_views(params@), s as int).0,
        r.1 == spec_legacy_color(param_views(params@), s as int).1,
{
    let len = params.len();
    if s >= len {
        return (None, len);
    }
    if params[s].len() == 0 {
        return (None, s + 1);
    }
    let kind = params[s][0];
    if kind == 2 {
        let r = match next_component(params, s + 1) {
            Some(v) => v,
            None => return (None, if len - s >= 2 { s + 2 } else { len }),
        };
        let g = match next_component(params, s + 2) {
            Some(v) => v,
            None => return (None, if len - s >= 3 { s + 3 } else { len }),
        };
        let b = match next_component(params, s + 3) {
            Some(v) => v,
            None => return (None, if len - s >= 4 { s + 4 } else { len }),
        };
        (Some(Color::Rgb(r, g, b)), s + 4)
    } else if kind == 5 {
        match next_component(params, s + 1) {
            Some(v) => (Some(Color::Indexed(v)), s + 2),
            None => (None, if len - s >= 2 { s + 2 } else { len }),
        }
    } else {
        (None, s + 1)
    }
}

/// The first value of group `j` as a component.
fn next_component(params: &Vec<Vec<u16>>, j: usize) -> (r: Option<u8>)
    requires
        j <= params@.len(),
    ensures
        r == spec_component_at(param_views(params@), j as int),
{
    if j < params.len() && params[j].len() > 0 {
        Some(component(params[j][0]))
    } else {
        None
    }
}

/// A parameter clamped to a color component.
fn component(value: u16) -> (r: u8)
    ensures
        r == spec_component(value),
{
    if value <= 255 {
        value as u8
    } else {
        255
    }
}

} // verus!
