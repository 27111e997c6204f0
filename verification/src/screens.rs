use vstd::prelude::*;

verus! {

/// The displays found when the display server was asked for them: all of
/// them, or none when the query failed.
pub fn get_all_display<S, E>(found: Result<Vec<S>, E>) -> (screens: Vec<S>)
    ensures
        match found {
            Ok(all) => screens@ == all@,
            Err(_) => screens@.len() == 0,
        },
{
    match found {
        Ok(screens) => screens,
        Err(_) => Vec::new(),
    }
}

} // verus!
