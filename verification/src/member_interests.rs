//! The interests card of a member's page: add an interest to the member or
//! take one away.
#![allow(non_snake_case)]
use vstd::prelude::*;
use crate::forms::{ActionReply, default_interest_choice, reply_then_refetch};
use crate::inputs::{i32_parse, id_choice};
use crate::interest::Interest;
use crate::ui::result_toast_spec;

verus! {

/// What happens on a member's interests card.
pub enum MemberInterestsEvent {
    /// Every interest arrived (for the "add interest" choice).
    InterestsLoaded(Vec<Interest>),
    /// An interest was picked in the "add interest" choice (the list's value).
    InterestChosen(String),
    /// The "add" button of the dialog.
    AddClicked,
    /// The "delete" button of one of the member's interests (by its id).
    RemoveClicked(Option<i32>),
    /// The answer to adding an interest.
    AddFinished(Result<(), String>),
    /// The answer to taking an interest away.
    RemoveFinished(Result<(), String>),
}

/// A change to a member's interests to send to the server.
#[derive(Debug, Clone, Copy, PartialEq, Eq, Structural)]
pub enum MemberInterestChange {
    Add { member_id: i32, interest_id: i32 },
    Remove { member_id: i32, interest_id: i32 },
}

/// The card's new choice, the change to send and the reply to show.
pub struct MemberInterestsStep {
    pub chosen_interest_id: i32,
    pub change: Option<MemberInterestChange>,
    pub reply: Option<ActionReply>,
}

/// A member's interests card. The "add" choice starts on the first
/// interest, and picking a value that is not a number keeps the choice.
/// While editing, "add" adds the chosen interest and "delete" takes the
/// interest away (its id, or 0 when it has none); outside edit mode the
/// buttons do nothing. A success says `Guardado` or `Borrado` and
/// fetches the member's interests again; a failure says `Error: <reason>`.
pub fn MemberInterestsUpsert(edit_mode: bool, member_id: i32, chosen_interest_id: i32, event: MemberInterestsEvent) -> (r: MemberInterestsStep)
    ensures
        event matches MemberInterestsEvent::InterestsLoaded(all) ==> r.change is None && r.reply is None
            && r.chosen_interest_id == (if all@.len() == 0 {
                chosen_interest_id
            } else {
                match all@[0].id {
                    Some(x) => x,
                    None => 0i32,
                }
            }),
        event matches MemberInterestsEvent::InterestChosen(v) ==> r.change is None && r.reply is None
            && r.chosen_interest_id == match i32_parse(v@) {
                Some(x) => x,
                None => chosen_interest_id,
            },
        event is AddClicked ==> r.chosen_interest_id == chosen_interest_id && r.reply is None
            && r.change == (if edit_mode {
                Some(MemberInterestChange::Add { member_id, interest_id: chosen_interest_id })
            } else {
                None
            }),
        event matches MemberInterestsEvent::RemoveClicked(id) ==> r.chosen_interest_id == chosen_interest_id
            && r.reply is None && r.change == (if edit_mode {
                Some(MemberInterestChange::Remove {
                    member_id,
                    interest_id: match id {
                        Some(x) => x,
                        None => 0i32,
                    },
                })
            } else {
                None
            }),
        event matches MemberInterestsEvent::AddFinished(res) ==> r.chosen_interest_id == chosen_interest_id
            && r.change is None && (r.reply matches Some(a) && a.toast.visible
                && (a.toast.message@, a.toast.toast_type) == result_toast_spec("Guardado"@, res)
                && a.refetch == res is Ok && !a.close_dialog && a.navigate_to is None && !a.reload),
        event matches MemberInterestsEvent::RemoveFinished(res) ==> r.chosen_interest_id == chosen_interest_id
            && r.change is None && (r.reply matches Some(a) && a.toast.visible
                && (a.toast.message@, a.toast.toast_type) == result_toast_spec("Borrado"@, res)
                && a.refetch == res is Ok && !a.close_dialog && a.navigate_to is None && !a.reload),
{
    match event {
        MemberInterestsEvent::InterestsLoaded(all) => MemberInterestsStep {
            chosen_interest_id: default_interest_choice(&all, chosen_interest_id),
            change: None,
            reply: None,
        },
        MemberInterestsEvent::InterestChosen(v) => MemberInterestsStep {
            chosen_interest_id: id_choice(chosen_interest_id, v.as_str()),
            change: None,
            reply: None,
        },
        MemberInterestsEvent::AddClicked => MemberInterestsStep {
            chosen_interest_id,
            change: if edit_mode {
                Some(MemberInterestChange::Add { member_id, interest_id: chosen_interest_id })
            } else {
                None
            },
            reply: None,
        },
        MemberInterestsEvent::RemoveClicked(id) => {
            let interest_id: i32 = match id {
                Some(x) => x,
                None => 0,
            };
            MemberInterestsStep {
                chosen_interest_id,
                change: if edit_mode {
                    Some(MemberInterestChange::Remove { member_id, interest_id })
                } else {
                    None
                },
                reply: None,
            }
        },
        MemberInterestsEvent::AddFinished(res) => MemberInterestsStep {
            chosen_interest_id,
            change: None,
            reply: Some(reply_then_refetch("Guardado", &res, false)),
        },
        MemberInterestsEvent::RemoveFinished(res) => MemberInterestsStep {
            chosen_interest_id,
            change: None,
            reply: Some(reply_then_refetch("Borrado", &res, false)),
        },
    }
}

} // verus!
