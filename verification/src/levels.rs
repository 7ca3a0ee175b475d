use vstd::prelude::*;

verus! {

/// A level of the game: who speaks, what the bot has been told, and whether
/// the model session still has to be primed.
#[derive(Clone, Debug)]
pub struct Level {
    /// The speaker tag of the player; the same on every level.
    pub user_name: &'static str,
    /// The speaker tag of the bot; the same on every level.
    pub bot_name: &'static str,
    pub level_count: i8,
    pub history: String,
    pub persona: String,
    pub orders: String,
    pub init_session: bool,
}

/// The speaker tag every level gives the player.
pub open spec fn level_user_name() -> Seq<char> {
    "### Adventurer"@
}

/// The speaker tag every level gives the bot.
pub open spec fn level_bot_name() -> Seq<char> {
    "### Heinz-Werner Grabner"@
}

impl Level {
    /// A fresh level: the given number and texts, the fixed speaker tags,
    /// and a session that still has to be primed.
    pub fn new(level_count: i8, history: String, persona: String, orders: String) -> (l: Self)
        ensures
            l.user_name@ == level_user_name(),
            l.bot_name@ == level_bot_name(),
            l.level_count == level_count,
            l.history@ == history@,
            l.persona@ == persona@,
            l.orders@ == orders@,
            l.init_session,
    {
        Self {
            user_name: "### Adventurer",
            bot_name: "### Heinz-Werner Grabner",
            level_count,
            history,
            persona,
            orders,
            init_session: true,
        }
    }
}

} // verus!
