//! The vehicle-type keyboard that goes with a vehicle stats reply, and how
//! the game account of a command is found.
use vstd::prelude::*;
use crate::backend::StateResponse;

verus! {

/// A button under a message that answers with `callback_data` when pressed.
pub struct CallbackButton {
    pub text: String,
    pub callback_data: String,
}

/// Rows of buttons under a message.
pub struct InlineKeyboard {
    pub rows: Vec<Vec<CallbackButton>>,
}

/// The vehicle types that the keyboard offers, in their order.
pub open spec fn vehicle_types() -> Seq<Seq<char>> {
    seq!["Tank"@, "Plane"@, "Other"@]
}

/// A button whose text and answer are both `label`.
fn callback_button(label: &str) -> (b: CallbackButton)
    ensures
        b.text@ == label@,
        b.callback_data@ == label@,
{
    CallbackButton { text: label.to_owned(), callback_data: label.to_owned() }
}

/// One row with a button for each vehicle type; each button answers with
/// its own type.
pub fn make_vehicle_keyboard() -> (k: InlineKeyboard)
    ensures
        k.rows@.len() == 1,
        k.rows@[0]@.len() == vehicle_types().len(),
        forall|i: int|
            0 <= i < vehicle_types().len() ==> (#[trigger] k.rows@[0]@[i]).text@
                == vehicle_types()[i] && k.rows@[0]@[i].callback_data@ == vehicle_types()[i],
        k.rows@[0]@.len() == 3,
        k.rows@[0]@[0].text@ == "Tank"@ && k.rows@[0]@[0].callback_data@ == "Tank"@,
        k.rows@[0]@[1].text@ == "Plane"@ && k.rows@[0]@[1].callback_data@ == "Plane"@,
        k.rows@[0]@[2].text@ == "Other"@ && k.rows@[0]@[2].callback_data@ == "Other"@,
{
    let mut row: Vec<CallbackButton> = Vec::new();
    row.push(callback_button("Tank"));
    row.push(callback_button("Plane"));
    row.push(callback_button("Other"));
    let mut rows: Vec<Vec<CallbackButton>> = Vec::new();
    rows.push(row);
    InlineKeyboard { rows }
}

/// The message sent when the sender has no game account bound.
pub const EA_ID_MISSING: &'static str = "Failed to get your EA username, please set it with /bind";

/// The game account named in a command, or `None` where the command names
/// none and the account bound to the sender is to be looked up.
pub fn given_ea_id(username: String) -> (r: Option<String>)
    ensures
        username@.len() == 0 ==> r is None,
        username@.len() != 0 ==> r == Some(username),
{
    if username.as_str().is_empty() {
        None
    } else {
        Some(username)
    }
}

/// The account that the user store answered with, or the message to send
/// where the store answered otherwise.
pub fn bound_ea_id(response: StateResponse) -> (r: Result<String, String>)
    ensures
        response matches StateResponse::EaUser(u) ==> r == Ok::<String, String>(u),
        !(response is EaUser) ==> (r matches Err(m) && m@ == EA_ID_MISSING@),
{
    match response {
        StateResponse::EaUser(u) => Ok(u),
        _ => Err(EA_ID_MISSING.to_owned()),
    }
}

} // verus!
