use vstd::prelude::*;

verus! {

/// The handle of one session: the bus name of the player that the
/// session's listener and controller are bound to.
#[derive(Debug, PartialEq, Eq)]
pub struct MprisWrapper {
    player_name: String,
}

impl View for MprisWrapper {
    type V = Seq<char>;

    closed spec fn view(&self) -> Seq<char> {
        self.player_name@
    }
}

impl MprisWrapper {
    pub fn new(player_name: String) -> (wrapper: MprisWrapper)
        ensures
            wrapper@ == player_name@,
    {
        MprisWrapper { player_name }
    }

    /// The bus name of the player.
    pub fn player_name(&self) -> (name: &str)
        ensures
            name@ == self@,
    {
        self.player_name.as_str()
    }

    /// Whether the session is bound to the player of this bus name. The
    /// names are compared as they are: no case is folded and no space
    /// dropped.
    pub fn is_bound_to(&self, name: &str) -> (bound: bool)
        ensures
            bound == (self@ == name@),
    {
        crate::text::same_text(self.player_name.as_str(), name)
    }
}

} // verus!
