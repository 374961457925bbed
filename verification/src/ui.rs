//! What the pages show and decide that is not markup: notifications, the
//! theme, the log-in gate and the state of lists.
use vstd::prelude::*;
use crate::user::User;

verus! {

/// The kind of a notification.
#[derive(Debug, Clone, Copy, PartialEq, Eq, Structural)]
pub enum ToastType {
    Success,
    Error,
}

/// A notification shown at the top of the page.
#[derive(Debug, Clone)]
pub struct ToastMessage {
    pub message: String,
    pub toast_type: ToastType,
    pub visible: bool,
}

/// A visible notification.
pub fn toast(message: String, toast_type: ToastType) -> (r: ToastMessage)
    ensures
        r.message == message,
        r.toast_type == toast_type,
        r.visible,
{
    ToastMessage { message, toast_type, visible: true }
}

/// The message of a failed action: `Error: <reason>`.
pub open spec fn error_text(reason: Seq<char>) -> Seq<char> {
    "Error: "@ + reason
}

/// The notification for the answer of an action: the success text, or
/// `Error: <reason>`.
pub open spec fn result_toast_spec(success: Seq<char>, result: Result<(), String>) -> (Seq<char>, ToastType) {
    match result {
        Ok(()) => (success, ToastType::Success),
        Err(e) => (error_text(e@), ToastType::Error),
    }
}

/// The notification that reports how an action ended.
pub fn result_toast(success: &str, result: &Result<(), String>) -> (r: ToastMessage)
    ensures
        (r.message@, r.toast_type) == result_toast_spec(success@, *result),
        r.visible,
{
    match result {
        Ok(()) => toast(String::from_str(success), ToastType::Success),
        Err(e) => {
            let mut m = String::from_str("Error: ");
            m.append(e.as_str());
            toast(m, ToastType::Error)
        },
    }
}

/// The theme a stored preference names: `dark`, `light`, or none.
pub open spec fn stored_theme_spec(stored: Option<Seq<char>>) -> Option<bool> {
    match stored {
        Some(t) => if t == "dark"@ {
            Some(true)
        } else if t == "light"@ {
            Some(false)
        } else {
            None
        },
        None => None,
    }
}

/// Reads the stored theme preference: `Some(true)` for dark, `Some(false)`
/// for light, and `None` when nothing (or something else) is stored.
pub fn get_stored_theme(stored: &Option<String>) -> (r: Option<bool>)
    ensures
        r == stored_theme_spec(match stored {
            Some(s) => Some(s@),
            None => None,
        }),
{
    match stored {
        Some(t) => {
            let dark = String::from_str("dark");
            let light = String::from_str("light");
            if *t == dark {
                Some(true)
            } else if *t == light {
                Some(false)
            } else {
                None
            }
        },
        None => None,
    }
}

/// The value stored for a theme preference, and set on the page.
pub fn theme_name(is_dark: bool) -> (r: &'static str)
    ensures
        r@ == (if is_dark { "dark"@ } else { "light"@ }),
{
    if is_dark { "dark" } else { "light" }
}

/// The theme at start-up: the stored preference, else the system's colour
/// scheme when it is known, else the current setting.
pub fn initial_dark_mode(stored: Option<bool>, system_prefers_dark: Option<bool>, current: bool) -> (r: bool)
    ensures
        r == match stored {
            Some(d) => d,
            None => match system_prefers_dark {
                Some(d) => d,
                None => current,
            },
        },
{
    match stored {
        Some(d) => d,
        None => match system_prefers_dark {
            Some(d) => d,
            None => current,
        },
    }
}

/// Whether the session holds a user: the request finished, succeeded and
/// returned a user.
pub fn is_logged_in(user_data: &Option<Result<Option<User>, String>>) -> (r: bool)
    ensures
        r == (user_data matches Some(Ok(Some(_)))),
{
    match user_data {
        None => false,
        Some(Err(_)) => false,
        Some(Ok(None)) => false,
        Some(Ok(Some(_))) => true,
    }
}

/// The state of a list that is fetched: still loading, nothing to show
/// (empty or failed), or the rows to show.
#[derive(Debug, Clone)]
pub enum Listing<T> {
    Loading,
    Empty,
    Rows(Vec<T>),
}

} // verus!
