//! What the program says of itself.

use vstd::prelude::*;
use vstd::string::StringExecFns;

verus! {

/// Name of the program.
pub const PROGRAM_NAME: &'static str = "weather-cli";

/// Version of the program.
pub const PROGRAM_VERSION: &'static str = "0.1.0";

/// Description of the program.
pub const PROGRAM_DESCRIPTION: &'static str =
    "Minimalistic command-line weather program. It works with OpenWeather API.";

/// Top message in the help section.
pub const ABOUT: &'static str =
    "* weather-cli - Minimalistic command-line weather program. It works with OpenWeather API.";

/// Authors of the program, separated by commas.
pub const PROGRAM_AUTHORS: &'static str = "Eva";

/// URL of the program on crates.io.
pub const CRATES_IO_URL: &'static str = "https://crates.io/crates/weather-cli";

/// URL of the program's repository.
pub const REPOSITORY_URL: &'static str = "https://github.com/evasquare/weather-cli";

/// Names in one line: a comma and a space between each two.
pub open spec fn joined_names(names: Seq<Seq<char>>) -> Seq<char>
    decreases names.len(),
{
    if names.len() == 0 {
        Seq::empty()
    } else if names.len() == 1 {
        names[0]
    } else {
        joined_names(names.drop_last()) + ", "@ + names.last()
    }
}

/// The names as characters.
pub open spec fn names_of(names: Seq<String>) -> Seq<Seq<char>> {
    names.map_values(|name: String| name@)
}

/// Writes the names of the authors in one line.
pub fn join_names(names: &[String]) -> (line: String)
    ensures
        line@ == joined_names(names_of(names@)),
{
    let ghost all = names_of(names@);
    let mut line = String::new();
    let mut i: usize = 0;
    while i < names.len()
        invariant
            i <= names.len(),
            all == names_of(names@),
            line@ == joined_names(all.take(i as int)),
        decreases names.len() - i,
    {
        proof {
            assert(all.take(i + 1).drop_last() =~= all.take(i as int));
            assert(all.take(i + 1).last() == names@[i as int]@);
        }
        if i == 0 {
            line.append(names[i].as_str());
            assert(line@ =~= names@[0]@);
        } else {
            line.append(", ");
            line.append(names[i].as_str());
        }
        i += 1;
    }
    proof {
        assert(all.take(names.len() as int) =~= all);
    }
    line
}

} // verus!
