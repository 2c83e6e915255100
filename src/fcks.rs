//! Fortune cookies.

use vstd::prelude::*;
use crate::random::pick;

verus! {

/// The sayings a fortune cookie holds.
pub open spec fn cookie_table() -> Seq<&'static str> {
    seq![
        "It is the invisible force that awakens your higher consciousness",
        "Trust that you're being guided",
        "You're Attracting Everything That Matches Your Energetic Vibration",
        "The important key to remember is to be aware of your thoughts and feelings at all times in order to attract and ",
        "manifest what you really desire in your life ",
        "Once you begin to understand and truly master your thoughts and feelings, that's when you see how you create ",
        "your own reality",
        "You are constantly changing as you walk the spiral path – and most importantly, your answer to \"who am I?\" is ",
        "changing, too ",
        "There is nothing stagnant in the Universe and everything is always in motion moving forward",
        "When you work hard for something you love, you feel passion",
        "You are the individual flame from the One Source Creator",
        "Your past was a training ground where the Universe prepared and equipped you for your next step",
        "When you realize your old path was filled with lessons that helped you grow roots, you will then begin to see ",
        "your new path filled with opportunities for expansion",
        "As you are continuously growing, you are becoming more true to yourself",
        "Remember, the bonds you forge with the people around you directly shape the quality of your existence",
        "As the leader of your own life, you can control your thinking",
    ]
}

fn cookies() -> (r: Vec<&'static str>)
    ensures
        r@ == cookie_table(),
{
    vec![
        "It is the invisible force that awakens your higher consciousness",
        "Trust that you're being guided",
        "You're Attracting Everything That Matches Your Energetic Vibration",
        "The important key to remember is to be aware of your thoughts and feelings at all times in order to attract and ",
        "manifest what you really desire in your life ",
        "Once you begin to understand and truly master your thoughts and feelings, that's when you see how you create ",
        "your own reality",
        "You are constantly changing as you walk the spiral path – and most importantly, your answer to \"who am I?\" is ",
        "changing, too ",
        "There is nothing stagnant in the Universe and everything is always in motion moving forward",
        "When you work hard for something you love, you feel passion",
        "You are the individual flame from the One Source Creator",
        "Your past was a training ground where the Universe prepared and equipped you for your next step",
        "When you realize your old path was filled with lessons that helped you grow roots, you will then begin to see ",
        "your new path filled with opportunities for expansion",
        "As you are continuously growing, you are becoming more true to yourself",
        "Remember, the bonds you forge with the people around you directly shape the quality of your existence",
        "As the leader of your own life, you can control your thinking",
    ]
}

/// A saying drawn at random from the table.
pub fn fortune_cookie() -> (r: &'static str)
    ensures
        cookie_table().contains(r),
{
    *pick(&cookies())
}

} // verus!
