use vstd::prelude::*;
use vstd::string::StringExecFns;

verus! {

/// Marks a token that opens the player endpoint.
pub struct Player;

/// Marks a token that opens the viewer endpoint.
pub struct Viewer;

/// An audience says which endpoint a token may open.
pub trait Audience {
    /// The audience's name, as written into a token.
    spec fn text() -> Seq<char>;

    /// The name to write into a token for this audience.
    fn get_name() -> (name: String)
        ensures
            name@ == Self::text(),
    ;

    /// The audience names that the endpoint of this audience accepts: its
    /// own and no other.
    fn accepts() -> (names: Vec<String>)
        ensures
            names@.len() == 1,
            names@[0]@ == Self::text(),
    ;
}

impl Audience for Player {
    open spec fn text() -> Seq<char> {
        "player"@
    }

    fn get_name() -> (name: String) {
        String::from_str("player")
    }

    fn accepts() -> (names: Vec<String>) {
        let mut names: Vec<String> = Vec::new();
        names.push(String::from_str("player"));
        names
    }
}

impl Audience for Viewer {
    open spec fn text() -> Seq<char> {
        "viewer"@
    }

    fn get_name() -> (name: String) {
        String::from_str("viewer")
    }

    fn accepts() -> (names: Vec<String>) {
        let mut names: Vec<String> = Vec::new();
        names.push(String::from_str("viewer"));
        names
    }
}

} // verus!
