//! Wording of the notifications: the label and colour of a side, the title
//! and the body of a message.

use crate::clock::{beijing_time_text, to_beijing_time};
use crate::fill::TransactionRecord;
use crate::text::{lowercase, lowercase_of, same_text};
use vstd::prelude::*;

verus! {

/// What a fill does, as far as the wording tells sides apart.
#[derive(Clone, Copy, Debug, PartialEq, Eq, Structural)]
pub enum SideKind {
    Buy,
    Sell,
    Long,
    Short,
    Deposit,
    Withdraw,
    Transfer,
    Receive,
    Other,
}

/// A colour by its red, green and blue parts.
#[derive(Clone, Copy, Debug, PartialEq, Eq, Structural)]
pub struct Rgb {
    pub r: u8,
    pub g: u8,
    pub b: u8,
}

/// A message for the push channels.
#[derive(Debug, PartialEq, Eq)]
pub struct Notification {
    pub title: String,
    pub body: String,
}

impl Clone for Notification {
    fn clone(&self) -> (copy: Self)
        ensures
            copy == *self,
    {
        Notification { title: self.title.clone(), body: self.body.clone() }
    }
}

/// The kind of a side that is written in lowercase as `lowered`. `send` counts
/// as a transfer.
pub open spec fn side_kind(lowered: Seq<char>) -> SideKind {
    if lowered == "buy"@ {
        SideKind::Buy
    } else if lowered == "sell"@ {
        SideKind::Sell
    } else if lowered == "long"@ {
        SideKind::Long
    } else if lowered == "short"@ {
        SideKind::Short
    } else if lowered == "deposit"@ {
        SideKind::Deposit
    } else if lowered == "withdraw"@ {
        SideKind::Withdraw
    } else if lowered == "transfer"@ || lowered == "send"@ {
        SideKind::Transfer
    } else if lowered == "receive"@ {
        SideKind::Receive
    } else {
        SideKind::Other
    }
}

/// The label shown for a side: a fixed word for each known kind, the side as
/// it was reported for any other.
pub open spec fn side_label(kind: SideKind, side: Seq<char>) -> Seq<char> {
    match kind {
        SideKind::Buy => "Buy"@,
        SideKind::Sell => "Sell"@,
        SideKind::Long => "Long"@,
        SideKind::Short => "Short"@,
        SideKind::Deposit => "Deposit"@,
        SideKind::Withdraw => "Withdraw"@,
        SideKind::Transfer => "Transfer"@,
        SideKind::Receive => "Receive"@,
        SideKind::Other => side,
    }
}

/// The colour in which a side is shown.
pub open spec fn side_colour(kind: SideKind) -> Rgb {
    match kind {
        SideKind::Buy | SideKind::Long => Rgb { r: 50, g: 180, b: 50 },
        SideKind::Sell | SideKind::Short => Rgb { r: 220, g: 50, b: 50 },
        SideKind::Deposit => Rgb { r: 50, g: 150, b: 150 },
        SideKind::Withdraw => Rgb { r: 150, g: 120, b: 50 },
        SideKind::Transfer => Rgb { r: 150, g: 100, b: 180 },
        SideKind::Receive => Rgb { r: 100, g: 150, b: 180 },
        SideKind::Other => Rgb { r: 100, g: 100, b: 100 },
    }
}

/// The bracketed category that opens a title.
pub open spec fn side_tag(kind: SideKind) -> Seq<char> {
    match kind {
        SideKind::Buy | SideKind::Long => "[LONG]"@,
        SideKind::Sell | SideKind::Short => "[SHORT]"@,
        SideKind::Deposit => "[DEPOSIT]"@,
        SideKind::Withdraw => "[WITHDRAW]"@,
        SideKind::Transfer => "[TRANSFER]"@,
        SideKind::Receive => "[RECEIVE]"@,
        SideKind::Other => "[TRANSACTION]"@,
    }
}

/// A title: category, local time, token and label, a space between each.
pub open spec fn title_text(
    tag: Seq<char>,
    time: Seq<char>,
    token: Seq<char>,
    label: Seq<char>,
) -> Seq<char> {
    tag + " "@ + time + " "@ + token + " "@ + label
}

/// A body: one line each for address, token, action, size, price and time.
pub open spec fn body_text(
    address: Seq<char>,
    token: Seq<char>,
    label: Seq<char>,
    size: Seq<char>,
    price: Seq<char>,
    time: Seq<char>,
) -> Seq<char> {
    "Address: "@ + address + "\nToken: "@ + token + "\nAction: "@ + label + "\nSize: "@ + size
        + "\nPrice: "@ + price + "\nTime: "@ + time
}

/// The title of the message about `record`.
pub open spec fn title_of(record: TransactionRecord) -> Seq<char> {
    let kind = side_kind(lowercase_of(record.side@));
    title_text(
        side_tag(kind),
        beijing_time_text(record.timestamp as int),
        record.token@,
        side_label(kind, record.side@),
    )
}

/// The body of the message about `record`, a fill of the account `address`.
pub open spec fn body_of(address: Seq<char>, record: TransactionRecord) -> Seq<char> {
    let kind = side_kind(lowercase_of(record.side@));
    body_text(
        address,
        record.token@,
        side_label(kind, record.side@),
        record.size@,
        record.entry_price@,
        beijing_time_text(record.timestamp as int),
    )
}

/// Tells the kind of a side from its lowercase form.
pub fn kind_of_lowercase(lowered: &str) -> (kind: SideKind)
    ensures
        kind == side_kind(lowered@),
{
    if same_text(lowered, "buy") {
        SideKind::Buy
    } else if same_text(lowered, "sell") {
        SideKind::Sell
    } else if same_text(lowered, "long") {
        SideKind::Long
    } else if same_text(lowered, "short") {
        SideKind::Short
    } else if same_text(lowered, "deposit") {
        SideKind::Deposit
    } else if same_text(lowered, "withdraw") {
        SideKind::Withdraw
    } else if same_text(lowered, "transfer") || same_text(lowered, "send") {
        SideKind::Transfer
    } else if same_text(lowered, "receive") {
        SideKind::Receive
    } else {
        SideKind::Other
    }
}

/// Tells the kind of a side as the exchange reports it, whatever its case.
pub fn kind_of_side(side: &str) -> (kind: SideKind)
    ensures
        kind == side_kind(lowercase_of(side@)),
{
    let lowered = lowercase(side);
    kind_of_lowercase(lowered.as_str())
}

/// The label for a side of the given kind.
pub fn label_for(kind: SideKind, side: &str) -> (label: String)
    ensures
        label@ == side_label(kind, side@),
{
    match kind {
        SideKind::Buy => String::from_str("Buy"),
        SideKind::Sell => String::from_str("Sell"),
        SideKind::Long => String::from_str("Long"),
        SideKind::Short => String::from_str("Short"),
        SideKind::Deposit => String::from_str("Deposit"),
        SideKind::Withdraw => String::from_str("Withdraw"),
        SideKind::Transfer => String::from_str("Transfer"),
        SideKind::Receive => String::from_str("Receive"),
        SideKind::Other => String::from_str(side),
    }
}

/// The colour for a side of the given kind.
pub fn colour_for(kind: SideKind) -> (colour: Rgb)
    ensures
        colour == side_colour(kind),
{
    match kind {
        SideKind::Buy | SideKind::Long => Rgb { r: 50, g: 180, b: 50 },
        SideKind::Sell | SideKind::Short => Rgb { r: 220, g: 50, b: 50 },
        SideKind::Deposit => Rgb { r: 50, g: 150, b: 150 },
        SideKind::Withdraw => Rgb { r: 150, g: 120, b: 50 },
        SideKind::Transfer => Rgb { r: 150, g: 100, b: 180 },
        SideKind::Receive => Rgb { r: 100, g: 150, b: 180 },
        SideKind::Other => Rgb { r: 100, g: 100, b: 100 },
    }
}

/// The category tag for a side of the given kind.
pub fn tag_for(kind: SideKind) -> (tag: String)
    ensures
        tag@ == side_tag(kind),
{
    match kind {
        SideKind::Buy | SideKind::Long => String::from_str("[LONG]"),
        SideKind::Sell | SideKind::Short => String::from_str("[SHORT]"),
        SideKind::Deposit => String::from_str("[DEPOSIT]"),
        SideKind::Withdraw => String::from_str("[WITHDRAW]"),
        SideKind::Transfer => String::from_str("[TRANSFER]"),
        SideKind::Receive => String::from_str("[RECEIVE]"),
        SideKind::Other => String::from_str("[TRANSACTION]"),
    }
}

/// The label and the colour under which a side is shown. The case of the
/// side does not matter; a side that is not known keeps its own wording.
pub fn get_formatted_side(side: &str) -> (shown: (String, Rgb))
    ensures
        shown.0@ == side_label(side_kind(lowercase_of(side@)), side@),
        shown.1 == side_colour(side_kind(lowercase_of(side@))),
{
    let kind = kind_of_side(side);
    (label_for(kind, side), colour_for(kind))
}

/// Puts a title together from its parts.
pub fn format_title(tag: &str, time: &str, token: &str, label: &str) -> (title: String)
    ensures
        title@ == title_text(tag@, time@, token@, label@),
{
    let mut title = String::from_str(tag);
    title.append(" ");
    title.append(time);
    title.append(" ");
    title.append(token);
    title.append(" ");
    title.append(label);
    title
}

/// Puts a body together from its parts.
pub fn format_body(
    address: &str,
    token: &str,
    label: &str,
    size: &str,
    price: &str,
    time: &str,
) -> (body: String)
    ensures
        body@ == body_text(address@, token@, label@, size@, price@, time@),
{
    let mut body = String::from_str("Address: ");
    body.append(address);
    body.append("\nToken: ");
    body.append(token);
    body.append("\nAction: ");
    body.append(label);
    body.append("\nSize: ");
    body.append(size);
    body.append("\nPrice: ");
    body.append(price);
    body.append("\nTime: ");
    body.append(time);
    body
}

/// The message about `record`, a new fill of the account `address`.
pub fn notification_for(address: &str, record: &TransactionRecord) -> (message: Notification)
    ensures
        message.title@ == title_of(*record),
        message.body@ == body_of(address@, *record),
{
    let time = to_beijing_time(record.timestamp);
    let kind = kind_of_side(record.side.as_str());
    let label = label_for(kind, record.side.as_str());
    let tag = tag_for(kind);
    let title = format_title(tag.as_str(), time.as_str(), record.token.as_str(), label.as_str());
    let body = format_body(
        address,
        record.token.as_str(),
        label.as_str(),
        record.size.as_str(),
        record.entry_price.as_str(),
        time.as_str(),
    );
    Notification { title, body }
}

} // verus!
