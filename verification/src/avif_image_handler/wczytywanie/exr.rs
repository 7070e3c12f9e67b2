//! Which channels of an OpenEXR layer make up an RGBA image. The samples
//! themselves are floating point and are copied outside the library.
use vstd::prelude::*;
use crate::text::{same_text, strings_view};

verus! {

/// The position of the last channel called `name`, if there is one.
pub open spec fn last_named(names: Seq<Seq<char>>, name: Seq<char>) -> Option<int>
    decreases names.len(),
{
    if names.len() == 0 {
        None
    } else if names.last() == name {
        Some(names.len() - 1)
    } else {
        last_named(names.drop_last(), name)
    }
}

/// The channels that make the red, green, blue and (if any) alpha samples.
#[derive(Clone, Copy, Debug, PartialEq, Eq, Structural)]
pub struct ExrChannels {
    pub r: usize,
    pub g: usize,
    pub b: usize,
    pub a: Option<usize>,
}

pub open spec fn as_index(o: Option<usize>) -> Option<int> {
    match o {
        Some(i) => Some(i as int),
        None => None,
    }
}

/// The channels of a layer, by their names: the last channel called "R",
/// "G", "B" and "A"; red, green and blue are required, in that order.
pub open spec fn channel_plan(names: Seq<Seq<char>>) -> Result<(int, int, int, Option<int>), Seq<char>> {
    if last_named(names, "R"@) is None {
        Err("Brak kanału R"@)
    } else if last_named(names, "G"@) is None {
        Err("Brak kanału G"@)
    } else if last_named(names, "B"@) is None {
        Err("Brak kanału B"@)
    } else {
        Ok((
            last_named(names, "R"@)->0,
            last_named(names, "G"@)->0,
            last_named(names, "B"@)->0,
            last_named(names, "A"@),
        ))
    }
}

/// The position of the last of `names` equal to `name`.
fn find_last(names: &Vec<String>, name: &str) -> (r: Option<usize>)
    ensures
        as_index(r) == last_named(strings_view(names@), name@),
{
    let mut found: Option<usize> = None;
    let mut i: usize = 0;
    while i < names.len()
        invariant
            i <= names@.len(),
            as_index(found) == last_named(strings_view(names@).take(i as int), name@),
        decreases names@.len() - i,
    {
        let ghost prefix = strings_view(names@).take(i + 1);
        assert(prefix.drop_last() =~= strings_view(names@).take(i as int));
        assert(prefix.last() == names@[i as int]@);
        if same_text(names[i].as_str(), name) {
            found = Some(i);
        }
        i = i + 1;
    }
    assert(strings_view(names@).take(names@.len() as int) =~= strings_view(names@));
    found
}

/// Picks the RGBA channels of an OpenEXR layer by their names.
pub fn exr_channel_plan(names: &Vec<String>) -> (r: Result<ExrChannels, String>)
    ensures
        match r {
            Ok(c) => channel_plan(strings_view(names@)) == Ok::<(int, int, int, Option<int>), Seq<char>>(
                (c.r as int, c.g as int, c.b as int, as_index(c.a)),
            ),
            Err(m) => channel_plan(strings_view(names@)) == Err::<(int, int, int, Option<int>), Seq<char>>(m@),
        },
{
    let r = match find_last(names, "R") {
        Some(i) => i,
        None => return Err("Brak kanału R".to_owned()),
    };
    let g = match find_last(names, "G") {
        Some(i) => i,
        None => return Err("Brak kanału G".to_owned()),
    };
    let b = match find_last(names, "B") {
        Some(i) => i,
        None => return Err("Brak kanału B".to_owned()),
    };
    let a = find_last(names, "A");
    Ok(ExrChannels { r, g, b, a })
}

} // verus!
