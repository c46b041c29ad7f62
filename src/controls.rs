use vstd::prelude::*;

verus! {

/// A manual adjustment of one threshold field by one decibel.
#[derive(Clone, Copy, Debug, PartialEq, Eq, Structural)]
pub enum Command {
    IncreaseTooLoud,
    DecreaseTooLoud,
    IncreaseTooQuite,
    DecreaseTooQuite,
    IncreaseGrace,
    DecreaseGrace,
}

impl Command {
    /// Every command, in the order a menu lists them.
    pub fn all() -> (r: Vec<Command>)
        ensures
            r@ == seq![
                Command::IncreaseTooLoud,
                Command::DecreaseTooLoud,
                Command::IncreaseTooQuite,
                Command::DecreaseTooQuite,
                Command::IncreaseGrace,
                Command::DecreaseGrace,
            ],
    {
        vec![
            Command::IncreaseTooLoud,
            Command::DecreaseTooLoud,
            Command::IncreaseTooQuite,
            Command::DecreaseTooQuite,
            Command::IncreaseGrace,
            Command::DecreaseGrace,
        ]
    }

    pub open spec fn label_spec(self) -> Seq<char> {
        match self {
            Command::IncreaseTooLoud => "Increase too loud"@,
            Command::DecreaseTooLoud => "Decrease too loud"@,
            Command::IncreaseTooQuite => "Increase too quite"@,
            Command::DecreaseTooQuite => "Decrease too quite"@,
            Command::IncreaseGrace => "Increase grace"@,
            Command::DecreaseGrace => "Decrease grace"@,
        }
    }

    /// The menu text of the command.
    pub fn label(&self) -> (r: &'static str)
        ensures
            r@ == self.label_spec(),
    {
        match self {
            Command::IncreaseTooLoud => "Increase too loud",
            Command::DecreaseTooLoud => "Decrease too loud",
            Command::IncreaseTooQuite => "Increase too quite",
            Command::DecreaseTooQuite => "Decrease too quite",
            Command::IncreaseGrace => "Increase grace",
            Command::DecreaseGrace => "Decrease grace",
        }
    }
}

} // verus!
