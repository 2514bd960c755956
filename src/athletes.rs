//! One small trait per sport, so that each athlete takes up only the sports
//! it does. Each method gives the line that reports the activity.
use vstd::prelude::*;

verus! {

pub trait Runner {
    fn run(&self) -> String;
}

pub trait Swimmer {
    fn swim(&self) -> String;
}

pub trait Cyclist {
    fn cycle(&self) -> String;
}

pub trait TeamSport {
    fn play_as_team(&self) -> String;
}

/// Runs, swims and cycles.
pub struct Triathlete;

impl Runner for Triathlete {
    fn run(&self) -> (r: String)
        ensures
            r@ == "Triathlete is running"@,
    {
        String::from_str("Triathlete is running")
    }
}

impl Swimmer for Triathlete {
    fn swim(&self) -> (r: String)
        ensures
            r@ == "Triathlete is swimming"@,
    {
        String::from_str("Triathlete is swimming")
    }
}

impl Cyclist for Triathlete {
    fn cycle(&self) -> (r: String)
        ensures
            r@ == "Triathlete is cycling"@,
    {
        String::from_str("Triathlete is cycling")
    }
}

/// Only runs.
pub struct RunnerOnly;

impl Runner for RunnerOnly {
    fn run(&self) -> (r: String)
        ensures
            r@ == "Runner is running"@,
    {
        String::from_str("Runner is running")
    }
}

/// Plays in a team.
pub struct SoccerPlayer;

impl TeamSport for SoccerPlayer {
    fn play_as_team(&self) -> (r: String)
        ensures
            r@ == "Soccer player is playing as part of a team"@,
    {
        String::from_str("Soccer player is playing as part of a team")
    }
}

} // verus!
