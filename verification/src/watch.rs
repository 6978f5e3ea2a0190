//! What the operator does with each item of the feed of applied devices.

use vstd::prelude::*;
use vstd::string::StringExecFns;

use crate::device::{Device, DeviceView};

verus! {

/// The text that `{:?}` gives for a device's name, present (`Ok`) or absent
/// (`Err`).
pub uninterp spec fn name_debug_text(name: Result<Seq<char>, Seq<char>>) -> Seq<char>;

/// The characters held on either side of a name that may be absent.
pub open spec fn name_chars(name: Result<String, &'static str>) -> Result<Seq<char>, Seq<char>> {
    match name {
        Ok(present) => Ok(present@),
        Err(absent) => Err(absent@),
    }
}

/// Calls std's `format!` with `{:?}` on `name`, that is the `Debug` impl of
/// `Result<String, &str>`. Nothing is claimed of the text but that it depends
/// on the characters of `name` alone.
#[verifier::external_body]
fn debug_name(name: &Result<String, &'static str>) -> (text: String)
    ensures
        text@ == name_debug_text(name_chars(*name)),
{
    format!("{:?}", name)
}

/// How a device's name is shown: the name where there is one, else an error
/// that holds the empty text.
pub open spec fn shown_name(name: Option<Seq<char>>) -> Result<Seq<char>, Seq<char>> {
    match name {
        Some(present) => Ok(present),
        None => Err(Seq::empty()),
    }
}

/// The line that announces a device, given the text for its name.
pub open spec fn announcement_text(
    name_text: Seq<char>,
    device_type: Seq<char>,
    vendor: Seq<char>,
) -> Seq<char> {
    "new device! name: "@ + name_text + ", device_type: "@ + device_type + ", vendor: "@ + vendor
}

/// The line that announces `device`.
pub open spec fn announcement_of(device: DeviceView) -> Seq<char> {
    announcement_text(
        name_debug_text(shown_name(device.metadata.name)),
        device.spec.device_type,
        device.spec.vendor,
    )
}

/// Puts the announcement together from the text for the name, the device
/// type and the vendor.
pub fn announcement_line(name_text: &str, device_type: &str, vendor: &str) -> (line: String)
    ensures
        line@ == announcement_text(name_text@, device_type@, vendor@),
{
    let mut line = String::from_str("new device! name: ");
    line.append(name_text);
    line.append(", device_type: ");
    line.append(device_type);
    line.append(", vendor: ");
    line.append(vendor);
    line
}

/// The line printed for an applied device: its name as `{:?}` shows it, its
/// type and its vendor. The display name in the spec is not part of it.
pub fn announcement(device: &Device) -> (line: String)
    ensures
        line@ == announcement_of(device@),
{
    let shown: Result<String, &'static str> = match &device.metadata.name {
        Some(name) => Ok(name.clone()),
        None => {
            proof {
                reveal_strlit("");
                assert(""@ =~= Seq::<char>::empty());
            }
            Err("")
        },
    };
    let name_text = debug_name(&shown);
    announcement_line(
        name_text.as_str(),
        device.spec.device_type.as_str(),
        device.spec.vendor.as_str(),
    )
}

/// One item of the feed of applied devices.
#[derive(Debug, PartialEq, Eq)]
pub enum FeedItem {
    /// A device was added or changed.
    Applied(Device),
    /// The feed broke; the text says how.
    Failed(String),
    /// The feed came to its end.
    Closed,
}

/// What the caller that runs the feed does next.
#[derive(Debug, PartialEq, Eq)]
pub enum Reaction {
    /// Print the line and go on with the next item.
    Print(String),
    /// Give up at once, with the feed's own words.
    Abort(String),
    /// Return: there is nothing more to come.
    Finish,
}

/// Decides what is done with one item of the feed: every applied device is
/// announced, the first failure ends the watch, and so does the end of the
/// feed.
pub fn react(item: FeedItem) -> (reaction: Reaction)
    ensures
        match item {
            FeedItem::Applied(device) => reaction matches Reaction::Print(line) && line@
                == announcement_of(device@),
            FeedItem::Failed(reason) => reaction matches Reaction::Abort(words) && words@
                == reason@,
            FeedItem::Closed => reaction is Finish,
        },
{
    match item {
        FeedItem::Applied(device) => Reaction::Print(announcement(&device)),
        FeedItem::Failed(reason) => Reaction::Abort(reason),
        FeedItem::Closed => Reaction::Finish,
    }
}

} // verus!
