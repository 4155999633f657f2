//! Talking to the development server, which sends the patches.

use vstd::prelude::*;
use dioxus_devtools::DevserverMsg;
use crate::jump_table::JumpTable;
use crate::jump_table::JumpTableView;
use crate::text::decimal_text;
use crate::text::same_text;

verus! {

/// The address of the development server of a page.
pub open spec fn url_of(protocol: Seq<char>, host: Seq<char>, build_id: nat) -> Seq<char> {
    (if protocol == "https:"@ {
        "wss:"@
    } else {
        "ws:"@
    }) + "//"@ + host + "/_dioxus?build_id="@ + crate::text::numeral(build_id, 10)
}

/// Where a page finds the development server: on its own host, over a secure connection exactly if
/// the page itself came over one.
pub fn devserver_url(protocol: &str, host: &str, build_id: u64) -> (url: String)
    ensures
        url@ == (if protocol@ == "https:"@ {
            "wss:"@
        } else {
            "ws:"@
        }) + "//"@ + host@ + "/_dioxus?build_id="@ + crate::text::numeral(build_id as nat, 10),
        url@ == url_of(protocol@, host@, build_id as nat),
{
    let scheme: &str = if same_text(protocol, "https:") {
        "wss:"
    } else {
        "ws:"
    };
    scheme.to_owned().concat("//").concat(host).concat("/_dioxus?build_id=").concat(
        decimal_text(build_id).as_str(),
    )
}

/// A message of the development server, as far as a page looks at it.
pub enum DevserverMessage {
    /// Something has changed; a patch comes with it if code has.
    HotReload(Option<JumpTable>),
    /// The server goes down.
    Shutdown,
    /// Any other message, as log lines show it.
    Other(String),
    /// No message; why it is none.
    Malformed(String),
}

/// What a [`DevserverMessage`] says.
pub enum DevserverMessageView {
    HotReload(Option<JumpTableView>),
    Shutdown,
    Other(Seq<char>),
    Malformed(Seq<char>),
}

impl View for DevserverMessage {
    type V = DevserverMessageView;

    open spec fn view(&self) -> DevserverMessageView {
        match self {
            DevserverMessage::HotReload(Some(patch)) => DevserverMessageView::HotReload(
                Some(patch@),
            ),
            DevserverMessage::HotReload(None) => DevserverMessageView::HotReload(None),
            DevserverMessage::Shutdown => DevserverMessageView::Shutdown,
            DevserverMessage::Other(text) => DevserverMessageView::Other(text@),
            DevserverMessage::Malformed(text) => DevserverMessageView::Malformed(text@),
        }
    }
}

impl DevserverMessage {
    /// In a patch that comes with the message no old address occurs twice.
    pub open spec fn wf(&self) -> bool {
        self matches DevserverMessage::HotReload(Some(patch)) ==> patch.wf()
    }
}

/// What `serde_json` makes of a text as a `dioxus_devtools::DevserverMsg`, on a machine with
/// pointers of `pointer_bits` bits: some parts of a message that a page does not look at have to
/// fit in a pointer.
pub uninterp spec fn devserver_message(text: Seq<char>, pointer_bits: u32) -> DevserverMessageView;

/// Reads a message with `serde_json::from_str`.
///
/// Taken on trust: the outcome depends on the text and on the size of a pointer alone, and the
/// jump table of a patch, being a hash map, has no old address twice. The pairs of the jump table
/// come in any order. What the outcome is for a given text is not stated.
#[verifier::external_body]
fn parse_devserver_message(text: &str) -> (message: DevserverMessage)
    ensures
        message@ == devserver_message(text@, usize::BITS),
        message.wf(),
{
    match serde_json::from_str::<DevserverMsg>(text) {
        Ok(DevserverMsg::HotReload(reload)) => match reload.jump_table {
            Some(table) => DevserverMessage::HotReload(Some(JumpTable {
                lib: table.lib.to_string_lossy().into_owned(),
                map: table.map.into_iter().collect(),
                aslr_reference: table.aslr_reference,
                new_base_address: table.new_base_address,
                ifunc_count: table.ifunc_count,
            })),
            None => DevserverMessage::HotReload(None),
        },
        Ok(DevserverMsg::Shutdown) => DevserverMessage::Shutdown,
        Ok(other) => DevserverMessage::Other(format!("{:?}", other)),
        Err(e) => DevserverMessage::Malformed(e.to_string()),
    }
}

/// What a page does on a message.
pub enum DevserverAction {
    /// Apply the patch, if there is one, and tell the page of the reload.
    Reload(Option<JumpTable>),
    /// Bring the patch into all threads.
    BeginPatch(JumpTable),
    /// Nothing.
    Nothing,
    /// Log an error.
    LogError(String),
    /// Log a remark.
    LogInfo(String),
}

impl DevserverAction {
    /// What every page logs on a message that is no reload.
    pub open spec fn logs(self, message: DevserverMessageView) -> bool {
        match message {
            DevserverMessageView::HotReload(_) => false,
            DevserverMessageView::Shutdown => self matches DevserverAction::LogError(text) && text@
                == "Connection to the devserver was closed"@,
            DevserverMessageView::Other(shown) => self matches DevserverAction::LogInfo(text)
                && text@ == "Ignore devserver message: "@ + shown,
            DevserverMessageView::Malformed(reason) => self matches DevserverAction::LogError(text)
                && text@ == "Error parsing devserver message: "@ + reason,
        }
    }

    /// What a page with a single thread does on a message.
    pub open spec fn answers_on_page(self, message: DevserverMessageView) -> bool {
        match message {
            DevserverMessageView::HotReload(Some(patch)) => self matches DevserverAction::Reload(
                Some(table),
            ) && table@ == patch,
            DevserverMessageView::HotReload(None) => self matches DevserverAction::Reload(None),
            _ => self.logs(message),
        }
    }

    /// What a page with several threads does on a message.
    pub open spec fn answers_on_parallel_page(self, message: DevserverMessageView) -> bool {
        match message {
            DevserverMessageView::HotReload(Some(patch)) => {
                self matches DevserverAction::BeginPatch(table) && table@ == patch
            },
            DevserverMessageView::HotReload(None) => self is Nothing,
            _ => self.logs(message),
        }
    }

    /// In a patch that comes with the action no old address occurs twice.
    pub open spec fn wf(&self) -> bool {
        match self {
            DevserverAction::Reload(Some(patch)) => patch.wf(),
            DevserverAction::BeginPatch(patch) => patch.wf(),
            _ => true,
        }
    }
}

fn log_message(message: DevserverMessage) -> (action: DevserverAction)
    requires
        !(message is HotReload),
    ensures
        action.logs(message@),
        action.wf(),
{
    match message {
        DevserverMessage::HotReload(_) => DevserverAction::Nothing,
        DevserverMessage::Shutdown => DevserverAction::LogError(
            "Connection to the devserver was closed".to_owned(),
        ),
        DevserverMessage::Other(shown) => DevserverAction::LogInfo(
            "Ignore devserver message: ".to_owned().concat(shown.as_str()),
        ),
        DevserverMessage::Malformed(reason) => DevserverAction::LogError(
            "Error parsing devserver message: ".to_owned().concat(reason.as_str()),
        ),
    }
}

/// What a page with a single thread does on a message that was read.
pub fn page_action(message: DevserverMessage) -> (action: DevserverAction)
    ensures
        action.answers_on_page(message@),
        message matches DevserverMessage::HotReload(patch) ==> action == DevserverAction::Reload(
            patch,
        ),
        message.wf() ==> action.wf(),
{
    match message {
        DevserverMessage::HotReload(patch) => DevserverAction::Reload(patch),
        other => log_message(other),
    }
}

/// What a page with several threads does on a message that was read.
pub fn parallel_page_action(message: DevserverMessage) -> (action: DevserverAction)
    ensures
        action.answers_on_parallel_page(message@),
        message matches DevserverMessage::HotReload(Some(patch)) ==> action
            == DevserverAction::BeginPatch(patch),
        action is Nothing <==> message == DevserverMessage::HotReload(None),
        message.wf() ==> action.wf(),
{
    match message {
        DevserverMessage::HotReload(Some(patch)) => DevserverAction::BeginPatch(patch),
        DevserverMessage::HotReload(None) => DevserverAction::Nothing,
        other => log_message(other),
    }
}

/// What a page with a single thread does on a text from the development server.
pub fn on_page_text(text: &str) -> (action: DevserverAction)
    ensures
        action.answers_on_page(devserver_message(text@, usize::BITS)),
        action.wf(),
{
    page_action(parse_devserver_message(text))
}

/// What a page with several threads does on a text from the development server.
pub fn on_parallel_page_text(text: &str) -> (action: DevserverAction)
    ensures
        action.answers_on_parallel_page(devserver_message(text@, usize::BITS)),
        action.wf(),
{
    parallel_page_action(parse_devserver_message(text))
}

/// What a message says is what it holds: the table of a patch, or the text.
pub proof fn law_view_keeps_the_message(message: DevserverMessage)
    ensures
        match message {
            DevserverMessage::HotReload(Some(patch)) => message@
                == DevserverMessageView::HotReload(Some(patch@)),
            DevserverMessage::HotReload(None) => message@ == DevserverMessageView::HotReload(None),
            DevserverMessage::Shutdown => message@ == DevserverMessageView::Shutdown,
            DevserverMessage::Other(text) => message@ == DevserverMessageView::Other(text@),
            DevserverMessage::Malformed(text) => message@ == DevserverMessageView::Malformed(
                text@,
            ),
        },
{
}

/// Where no old address occurs twice in the patch of a message, none does in the patch of an
/// action, and the other way round.
pub proof fn law_wf_is_that_of_the_patch(patch: JumpTable)
    ensures
        DevserverMessage::HotReload(Some(patch)).wf() <==> patch.wf(),
        DevserverAction::Reload(Some(patch)).wf() <==> patch.wf(),
        DevserverAction::BeginPatch(patch).wf() <==> patch.wf(),
{
}

/// A page with several threads brings in every patch that a reload carries, whatever the patch
/// holds, and no other; it does nothing exactly on a reload without a patch.
pub proof fn law_every_patch_is_begun(message: DevserverMessageView, action: DevserverAction)
    requires
        action.answers_on_parallel_page(message),
    ensures
        message matches DevserverMessageView::HotReload(Some(patch)) ==> (
        action matches DevserverAction::BeginPatch(table) && table@ == patch),
        action matches DevserverAction::BeginPatch(table) ==> message
            == DevserverMessageView::HotReload(Some(table@)),
        action is Nothing <==> message == DevserverMessageView::HotReload(None),
        !(action is Reload),
{
}

/// A page with a single thread reloads on every reload message, with the patch that it carries, if
/// any, and on no other message.
pub proof fn law_every_reload_is_done(message: DevserverMessageView, action: DevserverAction)
    requires
        action.answers_on_page(message),
    ensures
        message matches DevserverMessageView::HotReload(Some(patch)) ==> (
        action matches DevserverAction::Reload(Some(table)) && table@ == patch),
        message == DevserverMessageView::HotReload(None) ==> action == DevserverAction::Reload(
            None,
        ),
        action is Reload <==> message is HotReload,
        !(action is Nothing) && !(action is BeginPatch),
{
}

/// Both pages log the same on every message that is no reload: a shutdown and a text that is no
/// message are errors, any other message is a remark.
pub proof fn law_what_is_logged(message: DevserverMessageView, action: DevserverAction)
    requires
        action.answers_on_page(message) || action.answers_on_parallel_page(message),
    ensures
        message is Shutdown ==> (action matches DevserverAction::LogError(text) && text@
            == "Connection to the devserver was closed"@),
        message matches DevserverMessageView::Malformed(reason) ==> (
        action matches DevserverAction::LogError(text) && text@
            == "Error parsing devserver message: "@ + reason),
        message matches DevserverMessageView::Other(shown) ==> (
        action matches DevserverAction::LogInfo(text) && text@ == "Ignore devserver message: "@
            + shown),
{
}

/// The address of the development server is secure exactly for a page that came over `https:`, and
/// apart from that it does not depend on the protocol; it goes to the page's own host, and
/// different builds have different addresses.
pub proof fn law_where_the_server_is(
    protocol: Seq<char>,
    host: Seq<char>,
    build_id: nat,
    other_id: nat,
)
    ensures
        protocol == "https:"@ ==> url_of(protocol, host, build_id) == "wss:"@ + ("//"@ + host
            + "/_dioxus?build_id="@ + crate::text::numeral(build_id, 10)),
        protocol != "https:"@ ==> url_of(protocol, host, build_id) == "ws:"@ + ("//"@ + host
            + "/_dioxus?build_id="@ + crate::text::numeral(build_id, 10)),
        url_of(protocol, host, build_id) == url_of(protocol, host, other_id) ==> build_id
            == other_id,
{
    let rest = "//"@ + host + "/_dioxus?build_id="@ + crate::text::numeral(build_id, 10);
    assert(url_of("https:"@, host, build_id) =~= "wss:"@ + rest);
    if protocol != "https:"@ {
        assert(url_of(protocol, host, build_id) =~= "ws:"@ + rest);
    }
    let a = url_of(protocol, host, build_id);
    let b = url_of(protocol, host, other_id);
    if a == b {
        let scheme = if protocol == "https:"@ {
            "wss:"@
        } else {
            "ws:"@
        };
        let before = (scheme + "//"@ + host + "/_dioxus?build_id="@).len() as int;
        assert(a.skip(before) =~= crate::text::numeral(build_id, 10));
        assert(b.skip(before) =~= crate::text::numeral(other_id, 10));
        crate::text::law_numerals_tell_numbers_apart(build_id, other_id, 10);
    }
}

} // verus!
