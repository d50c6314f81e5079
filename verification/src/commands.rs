//! Which handler a slash command goes to.

use vstd::prelude::*;

verus! {

/// Where a slash command is sent.
#[derive(Debug, Clone, Copy, PartialEq, Eq, Structural)]
pub enum Route {
    /// Show a user's elo.
    GetElo,
    /// Show the leaderboard.
    Leaderboard,
    /// Start a challenge poll.
    Challenge,
    /// A challenge sent outside the channel the bot listens in.
    WrongChannel,
    /// Change the channel the bot listens in.
    SetChannel,
    /// A channel change by a member without the Manage Channels permission.
    MissingPermission,
    /// Give elo to another user.
    Give,
    /// A command this version does not handle.
    Unknown,
}

/// The route of the command named `name`, sent in `channel` by a member who
/// may (`Some(true)`) or may not (`Some(false)`) manage channels, while the bot
/// listens in `listening`.
pub open spec fn spec_route(
    name: Seq<char>,
    channel: Option<u64>,
    listening: u64,
    can_manage_channels: Option<bool>,
) -> Route {
    if name == "getelo"@ {
        Route::GetElo
    } else if name == "leaderboard"@ {
        Route::Leaderboard
    } else if name == "challenge"@ {
        if channel != Some(listening) {
            Route::WrongChannel
        } else {
            Route::Challenge
        }
    } else if name == "setchannel"@ {
        if can_manage_channels != Some(true) {
            Route::MissingPermission
        } else {
            Route::SetChannel
        }
    } else if name == "give"@ {
        Route::Give
    } else {
        Route::Unknown
    }
}

/// A challenge is routed only with the channel it was sent in known, and a
/// channel change only with the member's permissions known.
pub open spec fn route_defined(
    name: Seq<char>,
    channel: Option<u64>,
    can_manage_channels: Option<bool>,
) -> bool {
    &&& name == "challenge"@ ==> channel is Some
    &&& name == "setchannel"@ ==> can_manage_channels is Some
}

/// Whether [`route`] can route this command: the facts it needs are known.
pub fn route_is_defined(name: &String, channel: Option<u64>, can_manage_channels: Option<bool>) -> (b:
    bool)
    ensures
        b == route_defined(name@, channel, can_manage_channels),
{
    let challenge = "challenge".to_owned();
    let setchannel = "setchannel".to_owned();
    (*name != challenge || channel.is_some()) && (*name != setchannel
        || can_manage_channels.is_some())
}

/// Routes the slash command named `name`.
pub fn route(
    name: &String,
    channel: Option<u64>,
    listening: u64,
    can_manage_channels: Option<bool>,
) -> (r: Route)
    requires
        route_defined(name@, channel, can_manage_channels),
    ensures
        r == spec_route(name@, channel, listening, can_manage_channels),
        name@ == "challenge"@ ==> (r == Route::Challenge <==> channel == Some(listening)),
        name@ == "challenge"@ && channel != Some(listening) ==> r == Route::WrongChannel,
        name@ == "setchannel"@ ==> (r == Route::SetChannel <==> can_manage_channels == Some(true)),
        name@ == "setchannel"@ && can_manage_channels != Some(true) ==> r
            == Route::MissingPermission,
        name@ == "give"@ ==> r == Route::Give,
        name@ == "getelo"@ ==> r == Route::GetElo,
        name@ == "leaderboard"@ ==> r == Route::Leaderboard,
{
    proof {
        law_routes(name@, channel, listening, can_manage_channels);
    }
    if *name == "getelo".to_owned() {
        Route::GetElo
    } else if *name == "leaderboard".to_owned() {
        Route::Leaderboard
    } else if *name == "challenge".to_owned() {
        match channel {
            Some(c) if c == listening => Route::Challenge,
            _ => Route::WrongChannel,
        }
    } else if *name == "setchannel".to_owned() {
        match can_manage_channels {
            Some(true) => Route::SetChannel,
            _ => Route::MissingPermission,
        }
    } else if *name == "give".to_owned() {
        Route::Give
    } else {
        Route::Unknown
    }
}

/// Each command name goes to its own handler: a challenge goes to the
/// challenge handler exactly when it was sent in the listening channel, and is
/// refused otherwise; a channel change goes through exactly when the member
/// may manage channels, and is refused otherwise; `give`, `getelo` and
/// `leaderboard` always go to their handlers; any other name is unknown.
pub proof fn law_routes(
    name: Seq<char>,
    channel: Option<u64>,
    listening: u64,
    can_manage_channels: Option<bool>,
)
    ensures
        ({
            let r = spec_route(name, channel, listening, can_manage_channels);
            &&& name == "challenge"@ ==> (r == Route::Challenge <==> channel == Some(listening))
            &&& name == "challenge"@ && channel != Some(listening) ==> r == Route::WrongChannel
            &&& name == "setchannel"@ ==> (r == Route::SetChannel <==> can_manage_channels == Some(
                true,
            ))
            &&& name == "setchannel"@ && can_manage_channels != Some(true) ==> r
                == Route::MissingPermission
            &&& name == "give"@ ==> r == Route::Give
            &&& name == "getelo"@ ==> r == Route::GetElo
            &&& name == "leaderboard"@ ==> r == Route::Leaderboard
            &&& (name != "challenge"@ && name != "setchannel"@ && name != "give"@ && name
                != "getelo"@ && name != "leaderboard"@) ==> r == Route::Unknown
        }),
{
    reveal_strlit("getelo");
    reveal_strlit("leaderboard");
    reveal_strlit("challenge");
    reveal_strlit("setchannel");
    reveal_strlit("give");
    assert("getelo"@.len() == 6);
    assert("leaderboard"@.len() == 11);
    assert("challenge"@.len() == 9);
    assert("setchannel"@.len() == 10);
    assert("give"@.len() == 4);
}

} // verus!
