//! The face beside the banner: one of a few, picked at random and written
//! several times side by side.

use crate::info::Info;
use crate::text::{repeat, repeated};
use rand::seq::SliceRandom;
use vstd::prelude::*;

verus! {

/// The faces to pick from, each with the number of times that it is written.
pub open spec fn face_table() -> Seq<(Seq<char>, usize)> {
    seq![
        ("( ͡° ͜ʖ ͡°)"@, 3usize),
        ("(⌐■_■)"@, 4usize),
        ("¯\\_ツ_/¯"@, 3usize),
        ("(ಠ_ಠ)"@, 5usize),
        ("༼ つ ◕_◕ ༽つ  "@, 2usize),
        ("(ノಠ益ಠ)ノ彡┻━┻"@, 2usize),
        ("(╯°□°）╯︵ ┻━┻"@, 2usize),
        ("(◕‿◕✿)"@, 4usize),
    ]
}

/// Lists the faces to pick from.
pub fn faces() -> (r: Vec<(&'static str, usize)>)
    ensures
        r.deep_view() == face_table(),
{
    let mut table: Vec<(&'static str, usize)> = Vec::new();
    table.push(("( ͡° ͜ʖ ͡°)", 3));
    table.push(("(⌐■_■)", 4));
    table.push(("¯\\_ツ_/¯", 3));
    table.push(("(ಠ_ಠ)", 5));
    table.push(("༼ つ ◕_◕ ༽つ  ", 2));
    table.push(("(ノಠ益ಠ)ノ彡┻━┻", 2));
    table.push(("(╯°□°）╯︵ ┻━┻", 2));
    table.push(("(◕‿◕✿)", 4));
    table
}

/// Calls `SliceRandom::choose` of the crate `rand` on the table, with the
/// generator that `rand::thread_rng` hands out. Trusted: an empty table gives
/// nothing, and any other table gives one of its entries. Which entry is left
/// open, and two calls may differ. The generator is seeded by the system on
/// its first use in a thread, and panics where the system gives no seed.
#[verifier::external_body]
fn pick<'a>(table: &'a Vec<(&'static str, usize)>) -> (r: Option<&'a (&'static str, usize)>)
    ensures
        r is Some <==> table@.len() > 0,
        r matches Some(face) ==> table@.contains(*face),
{
    table.choose(&mut rand::thread_rng())
}

/// Every one of `lines` with `face` and a tab before it.
pub open spec fn beside(face: Seq<char>, lines: Seq<Seq<char>>) -> Seq<Seq<char>> {
    Seq::new(lines.len(), |i: int| face + "\t"@ + lines[i])
}

/// Writes `face` out `times` times, and puts that and a tab before every one
/// of `info`.
pub fn lay_out(face: &str, times: usize, info: &Vec<String>) -> (r: Vec<String>)
    ensures
        r.deep_view() == beside(repeated(face@, times as nat), info.deep_view()),
{
    let row = repeat(face, times);
    let mut out: Vec<String> = Vec::new();
    let mut i: usize = 0;
    while i < info.len()
        invariant
            i <= info.len(),
            row@ == repeated(face@, times as nat),
            out.len() == i,
            forall|j: int| 0 <= j < i ==> #[trigger] out[j]@ == row@ + "\t"@ + info[j]@,
        decreases info.len() - i,
    {
        out.push(row.clone().concat("\t").concat(info[i].as_str()));
        i = i + 1;
    }
    out
}

impl Info {
    /// Picks a face at random and lays the lines of `info` out beside it. The
    /// result is what is to be printed, line by line.
    pub fn print_faces(&self, info: &Vec<String>) -> (r: Vec<String>)
        ensures
            exists|k: int|
                0 <= k < face_table().len() && r.deep_view() == beside(
                    repeated((#[trigger] face_table()[k]).0, face_table()[k].1 as nat),
                    info.deep_view(),
                ),
    {
        let table = faces();
        let face = pick(&table).unwrap();
        proof {
            let k = choose|k: int| 0 <= k < table@.len() && table@[k] == *face;
            assert(table.deep_view()[k] == face_table()[k]);
        }
        lay_out(face.0, face.1, info)
    }
}

} // verus!
