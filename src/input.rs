use vstd::prelude::*;

verus! {

/// How many quick clicks in a row the last click completed.
#[derive(Clone, Copy, Debug, PartialEq, Eq, Structural)]
pub enum ClickState {
    NoClick,
    Click,
    DoubleClick,
    TripleClick,
}

/// The kind of selection a click starts.
#[derive(Clone, Copy, Debug, PartialEq, Eq, Structural)]
pub enum SelectionType {
    Simple,
    Block,
    Semantic,
    Lines,
}

/// The state after a click: within the click timeout a click upgrades the
/// previous one (a third quick click completes the series, and the next one
/// starts over); outside it a click starts over.
pub open spec fn next_click_spec(prev: ClickState, within_timeout: bool) -> ClickState {
    if !within_timeout {
        ClickState::Click
    } else {
        match prev {
            ClickState::Click => ClickState::DoubleClick,
            ClickState::DoubleClick => ClickState::TripleClick,
            _ => ClickState::Click,
        }
    }
}

pub fn next_click_state(prev: ClickState, within_timeout: bool) -> (r: ClickState)
    ensures
        r == next_click_spec(prev, within_timeout),
{
    if !within_timeout {
        ClickState::Click
    } else {
        match prev {
            ClickState::Click => ClickState::DoubleClick,
            ClickState::DoubleClick => ClickState::TripleClick,
            _ => ClickState::Click,
        }
    }
}

/// The selection a click starts: a single click selects characters (a block
/// with the block modifier held), a double click a word, a triple click
/// whole lines.
pub fn selection_for(click: ClickState, block_modifier: bool) -> (r: Option<SelectionType>)
    ensures
        r == match click {
            ClickState::NoClick => None,
            ClickState::Click => Some(
                if block_modifier {
                    SelectionType::Block
                } else {
                    SelectionType::Simple
                },
            ),
            ClickState::DoubleClick => Some(SelectionType::Semantic),
            ClickState::TripleClick => Some(SelectionType::Lines),
        },
{
    match click {
        ClickState::NoClick => None,
        ClickState::Click => if block_modifier {
            Some(SelectionType::Block)
        } else {
            Some(SelectionType::Simple)
        },
        ClickState::DoubleClick => Some(SelectionType::Semantic),
        ClickState::TripleClick => Some(SelectionType::Lines),
    }
}

} // verus!
