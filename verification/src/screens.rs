//! Images of the full-screen overlays (instructions, pause, game over,
//! victory), which differ between the arcade cabinet and a keyboard setup.
use vstd::prelude::*;

verus! {

/// The prompt telling how to restart (pause, game over and victory screens).
pub open spec fn restart_prompt_of(arcade: bool) -> Seq<char> {
    if arcade {
        "texture/restart_game_prompt_arcade.png"@
    } else {
        "texture/restart_game_prompt_keyboard.png"@
    }
}

/// The prompt telling how to restart (pause, game over and victory screens).
pub fn restart_prompt_texture(arcade: bool) -> (r: &'static str)
    ensures
        r@ == restart_prompt_of(arcade),
{
    if arcade {
        "texture/restart_game_prompt_arcade.png"
    } else {
        "texture/restart_game_prompt_keyboard.png"
    }
}

/// The instructions screen's background.
pub open spec fn instructions_of(arcade: bool) -> Seq<char> {
    if arcade {
        "texture/instructions_54_arcade.png"@
    } else {
        "texture/instructions_54.png"@
    }
}

/// The instructions screen's background.
pub fn instructions_texture(arcade: bool) -> (r: &'static str)
    ensures
        r@ == instructions_of(arcade),
{
    if arcade {
        "texture/instructions_54_arcade.png"
    } else {
        "texture/instructions_54.png"
    }
}

/// The prompt telling how to start the game on the instructions screen.
pub open spec fn start_prompt_of(arcade: bool) -> Seq<char> {
    if arcade {
        "texture/start_game_prompt_arcade.png"@
    } else {
        "texture/start_game_prompt_keyboard.png"@
    }
}

/// The prompt telling how to start the game on the instructions screen.
pub fn start_prompt_texture(arcade: bool) -> (r: &'static str)
    ensures
        r@ == start_prompt_of(arcade),
{
    if arcade {
        "texture/start_game_prompt_arcade.png"
    } else {
        "texture/start_game_prompt_keyboard.png"
    }
}

} // verus!
