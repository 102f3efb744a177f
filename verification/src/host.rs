//! State the host keeps for each running extension: the focus handles it
//! hands out, and the names under which an extension's commands appear.
use vstd::prelude::*;
use crate::text::{concat_str, push_char};

verus! {

/// Hands out focus handle ids: each call returns the next id, counting up
/// from the first; once the largest `u32` is reached it keeps returning it.
pub struct FocusHandleAllocator {
    pub next: u32,
}

/// The id after `next`: one more, or `u32::MAX` once that is reached.
pub open spec fn spec_advance(next: u32) -> u32 {
    if next == u32::MAX { u32::MAX } else { (next + 1) as u32 }
}

impl FocusHandleAllocator {
    /// An allocator whose first handle is 0.
    pub fn new() -> (r: Self)
        ensures
            r.next == 0,
    {
        FocusHandleAllocator { next: 0 }
    }

    /// Returns a new focus handle id and advances, saturating at `u32::MAX`.
    pub fn create_focus_handle(&mut self) -> (id: u32)
        ensures
            id == old(self).next,
            final(self).next == spec_advance(old(self).next),
    {
        let id = self.next;
        self.next = self.next.saturating_add(1);
        id
    }
}

/// Focus handle ids are handed out in increasing order: the id a call
/// returns is smaller than the one the next call returns, unless it is
/// already `u32::MAX`, which every later call returns again.
pub proof fn lemma_focus_handles_increase(next: u32)
    ensures
        next < u32::MAX ==> next < spec_advance(next),
        next == u32::MAX ==> spec_advance(next) == u32::MAX,
{
}

/// The lowercase form of a string, as `str::to_lowercase` computes it with
/// Unicode's case tables.
pub uninterp spec fn lowercase_text(s: Seq<char>) -> Seq<char>;

/// Calls `str::to_lowercase`: the string with every character replaced by
/// its lowercase mapping; the result depends on the string alone.
#[verifier::external_body]
fn to_lowercase(s: &str) -> (r: String)
    ensures
        r@ == lowercase_text(s@),
{
    s.to_lowercase()
}

/// `s` with every space replaced by an underscore.
pub open spec fn spaces_to_underscores(s: Seq<char>) -> Seq<char> {
    s.map_values(|c: char| if c == ' ' { '_' } else { c })
}

/// Replaces every space of `s` with an underscore.
pub fn replace_spaces(s: &str) -> (r: String)
    ensures
        r@ == spaces_to_underscores(s@),
{
    let chars = crate::text::chars_of(s);
    let mut r = String::new();
    let mut i: usize = 0;
    while i < chars.len()
        invariant
            i <= chars@.len(),
            chars@ == s@,
            r@ == spaces_to_underscores(s@).take(i as int),
        decreases chars@.len() - i,
    {
        let c = chars[i];
        push_char(&mut r, if c == ' ' { '_' } else { c });
        assert(spaces_to_underscores(s@).take(i + 1) =~= spaces_to_underscores(s@).take(i as int).push(
            if c == ' ' { '_' } else { c },
        ));
        i += 1;
    }
    assert(spaces_to_underscores(s@).take(i as int) =~= spaces_to_underscores(s@));
    r
}

/// The name under which an extension's command appears in the command
/// palette: the extension's name in lowercase with spaces turned into
/// underscores, a colon and a space, then the command's label.
pub open spec fn spec_command_display_name(extension_name: Seq<char>, label: Seq<char>) -> Seq<char> {
    spaces_to_underscores(lowercase_text(extension_name)) + ": "@ + label
}

/// The palette name of a command that an extension registers.
pub fn command_display_name(extension_name: &str, label: &str) -> (r: String)
    ensures
        r@ == spec_command_display_name(extension_name@, label@),
{
    let lower = to_lowercase(extension_name);
    let namespace = replace_spaces(lower.as_str());
    let head = concat_str(namespace.as_str(), ": ");
    concat_str(head.as_str(), label)
}

/// The requests an extension makes to the host through its command channel.
#[derive(Clone, Copy, PartialEq, Eq, Structural, Debug)]
pub enum HostRequest {
    ExecuteCommand,
    ExecuteSlashCommand,
    Query,
    RegisterQueryHandler,
    UnregisterQueryHandler,
    Subscribe,
    Unsubscribe,
    Publish,
}

/// How far a request got before it failed.
#[derive(Clone, Copy, PartialEq, Eq, Structural, Debug)]
pub enum RequestFailure {
    /// The extension has no command channel to the host.
    NoChannel,
    /// The channel on which the host delivers queries or events back is
    /// missing (only for registering a query handler and subscribing).
    NoDeliveryChannel,
    /// The request could not be sent.
    SendFailed,
    /// The host dropped the request without answering.
    ChannelClosed,
}

/// The error an extension receives when a request fails at a stage.
pub open spec fn spec_request_error(req: HostRequest, failure: RequestFailure) -> Seq<char> {
    match failure {
        RequestFailure::NoChannel => match req {
            HostRequest::ExecuteCommand => "Command execution not available"@,
            HostRequest::ExecuteSlashCommand => "Slash command execution not available"@,
            HostRequest::Query | HostRequest::RegisterQueryHandler | HostRequest::UnregisterQueryHandler => "Query not available"@,
            HostRequest::Subscribe | HostRequest::Unsubscribe | HostRequest::Publish => "Pub-sub not available"@,
        },
        RequestFailure::NoDeliveryChannel => match req {
            HostRequest::RegisterQueryHandler => "Query delivery channel not available"@,
            _ => "Pub-sub event channel not available"@,
        },
        RequestFailure::SendFailed => match req {
            HostRequest::ExecuteCommand => "Failed to send command execution request"@,
            HostRequest::ExecuteSlashCommand => "Failed to send slash command execution request"@,
            HostRequest::Query => "Failed to send query request"@,
            HostRequest::RegisterQueryHandler => "Failed to register query handler"@,
            HostRequest::UnregisterQueryHandler => "Failed to send unregister request"@,
            HostRequest::Subscribe => "Failed to send subscribe request"@,
            HostRequest::Unsubscribe => "Failed to send unsubscribe request"@,
            HostRequest::Publish => "Failed to send publish request"@,
        },
        RequestFailure::ChannelClosed => match req {
            HostRequest::ExecuteCommand => "Command execution channel closed"@,
            HostRequest::ExecuteSlashCommand => "Slash command execution channel closed"@,
            _ => "Channel closed"@,
        },
    }
}

/// The error message of a failed request.
pub fn request_error(req: HostRequest, failure: RequestFailure) -> (r: String)
    ensures
        r@ == spec_request_error(req, failure),
{
    let m: &str = match failure {
        RequestFailure::NoChannel => match req {
            HostRequest::ExecuteCommand => "Command execution not available",
            HostRequest::ExecuteSlashCommand => "Slash command execution not available",
            HostRequest::Query | HostRequest::RegisterQueryHandler | HostRequest::UnregisterQueryHandler => "Query not available",
            HostRequest::Subscribe | HostRequest::Unsubscribe | HostRequest::Publish => "Pub-sub not available",
        },
        RequestFailure::NoDeliveryChannel => match req {
            HostRequest::RegisterQueryHandler => "Query delivery channel not available",
            _ => "Pub-sub event channel not available",
        },
        RequestFailure::SendFailed => match req {
            HostRequest::ExecuteCommand => "Failed to send command execution request",
            HostRequest::ExecuteSlashCommand => "Failed to send slash command execution request",
            HostRequest::Query => "Failed to send query request",
            HostRequest::RegisterQueryHandler => "Failed to register query handler",
            HostRequest::UnregisterQueryHandler => "Failed to send unregister request",
            HostRequest::Subscribe => "Failed to send subscribe request",
            HostRequest::Unsubscribe => "Failed to send unsubscribe request",
            HostRequest::Publish => "Failed to send publish request",
        },
        RequestFailure::ChannelClosed => match req {
            HostRequest::ExecuteCommand => "Command execution channel closed",
            HostRequest::ExecuteSlashCommand => "Slash command execution channel closed",
            _ => "Channel closed",
        },
    };
    m.to_owned()
}

/// Whether a request needs a channel on which the host delivers back
/// (queries to a handler, events to a subscriber).
pub open spec fn needs_delivery_channel(req: HostRequest) -> bool {
    req == HostRequest::RegisterQueryHandler || req == HostRequest::Subscribe
}

/// What becomes of a request: without a command channel it fails; a
/// handler registration or subscription also fails without its delivery
/// channel; then it fails if it cannot be sent; otherwise the host's reply
/// is the answer, or, when the host dropped the request, an error.
pub fn request_outcome(req: HostRequest, has_channel: bool, has_delivery_channel: bool, sent: bool, reply: Option<Result<String, String>>) -> (r: Result<String, String>)
    ensures
        !has_channel ==> (r matches Err(e) && e@ == spec_request_error(req, RequestFailure::NoChannel)),
        has_channel && needs_delivery_channel(req) && !has_delivery_channel ==> (r matches Err(e) && e@ == spec_request_error(req, RequestFailure::NoDeliveryChannel)),
        has_channel && (!needs_delivery_channel(req) || has_delivery_channel) ==> if !sent {
            r matches Err(e) && e@ == spec_request_error(req, RequestFailure::SendFailed)
        } else {
            match reply {
                Some(answer) => r == answer,
                None => r matches Err(e) && e@ == spec_request_error(req, RequestFailure::ChannelClosed),
            }
        },
{
    if !has_channel {
        return Err(request_error(req, RequestFailure::NoChannel));
    }
    let needs = match req {
        HostRequest::RegisterQueryHandler | HostRequest::Subscribe => true,
        _ => false,
    };
    if needs && !has_delivery_channel {
        return Err(request_error(req, RequestFailure::NoDeliveryChannel));
    }
    if !sent {
        return Err(request_error(req, RequestFailure::SendFailed));
    }
    match reply {
        Some(answer) => answer,
        None => Err(request_error(req, RequestFailure::ChannelClosed)),
    }
}

} // verus!
