use vstd::prelude::*;

verus! {

/// The profile of a player, as carried in the player's token.
#[derive(Debug)]
pub struct JWTPlayerData {
    name: String,
}

impl View for JWTPlayerData {
    type V = Seq<char>;

    /// A profile is its name.
    closed spec fn view(&self) -> Seq<char> {
        self.name@
    }
}

impl Clone for JWTPlayerData {
    fn clone(&self) -> (copy: Self)
        ensures
            copy == *self,
    {
        JWTPlayerData { name: self.name.clone() }
    }
}

impl JWTPlayerData {
    pub fn new(name: String) -> (data: Self)
        ensures
            data@ == name@,
    {
        JWTPlayerData { name }
    }

    pub fn get_name(&self) -> (name: &String)
        ensures
            name@ == self@,
    {
        &self.name
    }
}

} // verus!
