use vstd::prelude::*;

verus! {

/// What a connector says of the bot account it runs.
#[derive(Clone, Debug, PartialEq, Default)]
pub struct BotInfo {
    pub id: Option<String>,
    pub nickname: Option<String>,
}

} // verus!
