use vstd::prelude::*;
use vstd::string::*;

verus! {

/// The session numbers that every learning path has.
pub open spec fn session_numbers() -> Seq<Seq<char>> {
    seq![seq!['1', '0'], seq!['2', '0'], seq!['3', '0'], seq!['4', '0'], seq!['5', '0']]
}

/// The name of a session: its learning path followed by its number.
pub fn session_name(learning_path: &str, session_number: &str) -> (r: String)
    ensures
        r@ == learning_path@ + session_number@,
{
    let mut name = String::from_str(learning_path);
    name.append(session_number);
    name
}

/// The names of the sessions of a learning path, `SRE` giving `SRE10`
/// through `SRE50`.
pub fn map_learning_path_to_session_name(learning_path: &str) -> (r: Vec<String>)
    ensures
        r.deep_view() == session_numbers().map_values(|n: Seq<char>| learning_path@ + n),
{
    let numbers: [&str; 5] = ["10", "20", "30", "40", "50"];
    let mut names: Vec<String> = Vec::new();
    let mut i: usize = 0;
    proof {
        reveal_strlit("10");
        reveal_strlit("20");
        reveal_strlit("30");
        reveal_strlit("40");
        reveal_strlit("50");
    }
    while i < 5
        invariant
            i <= 5,
            numbers@ == seq!["10", "20", "30", "40", "50"],
            forall|k: int| 0 <= k < 5 ==> (#[trigger] numbers@[k])@ == session_numbers()[k],
            names.deep_view() == session_numbers().take(i as int).map_values(
                |n: Seq<char>| learning_path@ + n,
            ),
        decreases 5 - i,
    {
        let name = session_name(learning_path, numbers[i]);
        let ghost before = names.deep_view();
        names.push(name);
        proof {
            assert(names.deep_view() =~= before.push(learning_path@ + session_numbers()[i as int]));
            assert(session_numbers().take(i + 1) =~= session_numbers().take(i as int).push(
                session_numbers()[i as int],
            ));
        }
        i = i + 1;
    }
    proof {
        assert(session_numbers().take(5) =~= session_numbers());
    }
    names
}

} // verus!
