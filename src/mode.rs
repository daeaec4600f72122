//! The display modes and the parsing of the startup arguments.
use vstd::prelude::*;
use vstd::string::StrSliceExecFns;

verus! {

/// What each frame shows.
#[derive(Clone, Copy, Debug, PartialEq, Eq, Structural)]
pub enum Which {
    /// The texture sampled through the scrolled maps.
    Effect,
    /// The texture itself, copied into the top-left corner.
    Texture,
    /// The scrolled distance map as grey levels.
    Distance,
    /// The scrolled angle map as grey levels.
    Angle,
}

/// Why the startup arguments were refused.
#[derive(Debug)]
pub enum ArgsError {
    /// More than one argument was given.
    TooMany,
    /// The argument names no display mode; it is held here.
    NotRecognised(String),
}

/// The display mode that a token names, if any.
pub open spec fn mode_named(s: Seq<char>) -> Option<Which> {
    if s == "e"@ || s == "eff"@ || s == "effect"@ {
        Some(Which::Effect)
    } else if s == "t"@ || s == "tex"@ || s == "texture"@ {
        Some(Which::Texture)
    } else if s == "d"@ || s == "dist"@ || s == "distance"@ {
        Some(Which::Distance)
    } else if s == "a"@ || s == "ang"@ || s == "angle"@ {
        Some(Which::Angle)
    } else {
        None
    }
}

/// Whether the two strings hold the same characters.
fn same_text(a: &str, b: &str) -> (r: bool)
    ensures
        r == (a@ == b@),
{
    let n: usize = a.unicode_len();
    if n != b.unicode_len() {
        return false;
    }
    let mut i: usize = 0;
    while i < n
        invariant
            n == a@.len() == b@.len(),
            i <= n,
            a@.subrange(0, i as int) == b@.subrange(0, i as int),
        decreases n - i,
    {
        if a.get_char(i) != b.get_char(i) {
            return false;
        }
        assert(a@.subrange(0, i + 1) =~= a@.subrange(0, i as int).push(a@[i as int]));
        assert(b@.subrange(0, i + 1) =~= b@.subrange(0, i as int).push(b@[i as int]));
        i = i + 1;
    }
    assert(a@ =~= a@.subrange(0, n as int));
    assert(b@ =~= b@.subrange(0, n as int));
    true
}

impl Which {
    /// The display mode that the token `s` names: `e`, `eff`, `effect`;
    /// `t`, `tex`, `texture`; `d`, `dist`, `distance`; `a`, `ang`, `angle`.
    pub fn from_str(s: &str) -> (r: Result<Which, ArgsError>)
        ensures
            match mode_named(s@) {
                Some(m) => r == Ok::<Which, ArgsError>(m),
                None => match r {
                    Err(ArgsError::NotRecognised(t)) => t@ == s@,
                    _ => false,
                },
            },
    {
        if same_text(s, "e") || same_text(s, "eff") || same_text(s, "effect") {
            Ok(Which::Effect)
        } else if same_text(s, "t") || same_text(s, "tex") || same_text(s, "texture") {
            Ok(Which::Texture)
        } else if same_text(s, "d") || same_text(s, "dist") || same_text(s, "distance") {
            Ok(Which::Distance)
        } else if same_text(s, "a") || same_text(s, "ang") || same_text(s, "angle") {
            Ok(Which::Angle)
        } else {
            Err(ArgsError::NotRecognised(s.to_owned()))
        }
    }
}

impl Default for Which {
    /// The sampled effect.
    fn default() -> (r: Which)
        ensures
            r == Which::Effect,
    {
        Which::Effect
    }
}

/// The display mode that the startup arguments (without the program's own
/// name) select: the effect when there are none, the mode that a single
/// argument names, and an error otherwise.
pub fn parse_args(args: &Vec<String>) -> (r: Result<Which, ArgsError>)
    ensures
        args@.len() == 0 ==> r == Ok::<Which, ArgsError>(Which::Effect),
        args@.len() > 1 ==> r matches Err(ArgsError::TooMany),
        args@.len() == 1 ==> match mode_named(args@[0]@) {
            Some(m) => r == Ok::<Which, ArgsError>(m),
            None => match r {
                Err(ArgsError::NotRecognised(t)) => t@ == args@[0]@,
                _ => false,
            },
        },
{
    if args.len() > 1 {
        return Err(ArgsError::TooMany);
    }
    if args.len() == 1 {
        Which::from_str(args[0].as_str())
    } else {
        Ok(Which::default())
    }
}

} // verus!
