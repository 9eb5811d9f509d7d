//! The catalog of notices the registration pipeline emits: one spec
//! function per text, and builders that render the texts with their
//! offending values filled in.

use vstd::prelude::*;
use crate::messages::{notice_plain_string, plain, OutboundMessage};
use crate::text::{concat3, concat5, join_comma, render_u16, seq_views, spec_dec, spec_join};

verus! {

/// The well-known URL derived from a server's domain.
pub open spec fn well_known_url_of(server: Seq<char>) -> Seq<char> {
    "https://"@ + server + "/.well-known/matrix/mx.homeservers.metadata"@
}

/// An https address for a declared host name.
pub open spec fn https_of(name: Seq<char>) -> Seq<char> {
    "https://"@ + name
}

pub open spec fn text_start() -> Seq<char> {
    "Starting verification process..."@
}

pub open spec fn text_step1() -> Seq<char> {
    "[Step 1/8] Getting well-known file..."@
}

pub open spec fn text_step2() -> Seq<char> {
    "[Step 2/8] Ensuring .well-known file is reachable..."@
}

pub open spec fn text_err_fetch(url: Seq<char>) -> Seq<char> {
    "[ERROR] Unable to find well_known file at: '"@ + url
        + "'. This is most likely due to a connectivity issue."@
}

pub open spec fn text_err_status(url: Seq<char>, status: u16) -> Seq<char> {
    "[ERROR] .well-known file at: '"@ + url + "' returned incorrect status code "@ + spec_dec(
        status as nat,
    ) + ". We expect Status Code 200."@
}

pub open spec fn text_step3() -> Seq<char> {
    "[Step 3/8] Ensuring .well-known file is valid..."@
}

pub open spec fn text_err_invalid(url: Seq<char>) -> Seq<char> {
    "[ERROR] .well-known file at: '"@ + url + "' has invalid format."@
}

pub open spec fn text_step4() -> Seq<char> {
    "[Step 4/8] Ensuring .well-known file has you listed as an admin of the server..."@
}

pub open spec fn text_err_admin(url: Seq<char>, sender: Seq<char>, admins: Seq<Seq<char>>) -> Seq<
    char,
> {
    "[ERROR] According to the .well-known file at: '"@ + url
        + "' you are not any of the admins of this homeserver. Your mxid: "@ + sender
        + ", Admins in the .well-known config: "@ + spec_join(admins)
}

pub open spec fn text_step5() -> Seq<char> {
    "[Step 5/8] Ensuring .well-known file server_name field is reachable..."@
}

pub open spec fn text_err_server_name(addr: Seq<char>) -> Seq<char> {
    "[ERROR] The server_name field from the .well-known file ('"@ + addr
        + "') cannot be reached."@
}

pub open spec fn text_step6() -> Seq<char> {
    "[Step 6/8] Ensuring .well-known file url field is reachable..."@
}

pub open spec fn text_err_url(addr: Seq<char>) -> Seq<char> {
    "[ERROR] The url field from the .well-known file ('"@ + addr + "') cannot be reached."@
}

pub open spec fn text_step7() -> Seq<char> {
    "[Step 7/8] Ensuring .well-known file logo_url field is reachable..."@
}

pub open spec fn text_step7_skip() -> Seq<char> {
    "[Step 7/8] Skipping check as no logo_url was defined."@
}

pub open spec fn text_err_logo(addr: Seq<char>) -> Seq<char> {
    "[ERROR] The logo_url field from the .well-known file ('"@ + addr + "') cannot be reached."@
}

/// The broadcast sent to the admin room on a successful run.
pub open spec fn text_broadcast(server: Seq<char>) -> Seq<char> {
    "@room New Server needs verification: "@ + server
}

pub open spec fn text_step8_ok() -> Seq<char> {
    "[Step 8/8] Server fulfilled automated tests. The server was sent to manual verification. This can take up to some days. The bot will notify you about any update."@
}

pub open spec fn text_step8_degraded() -> Seq<char> {
    "[ERROR][Step 8/8] Server fulfilled automated tests. But the bot wasn't able to inform the project admins. Please try again another day."@
}

/// Builds the well-known URL for a server's domain.
pub fn well_known_url(server: &str) -> (r: String)
    ensures
        r@ == well_known_url_of(server@),
{
    concat3("https://", server, "/.well-known/matrix/mx.homeservers.metadata")
}

/// Builds the https address for a declared host name.
pub fn https_addr(name: &str) -> (r: String)
    ensures
        r@ == https_of(name@),
{
    let mut s = "https://".to_owned();
    s.append(name);
    s
}

/// Builds the connectivity-failure notice.
pub fn err_fetch_notice(url: &str) -> (m: OutboundMessage)
    ensures
        m@ == plain(text_err_fetch(url@)),
{
    notice_plain_string(
        concat3(
            "[ERROR] Unable to find well_known file at: '",
            url,
            "'. This is most likely due to a connectivity issue.",
        ),
    )
}

/// Builds the wrong-status notice, naming the returned status code.
pub fn err_status_notice(url: &str, status: u16) -> (m: OutboundMessage)
    ensures
        m@ == plain(text_err_status(url@, status)),
{
    let code = render_u16(status);
    notice_plain_string(
        concat5(
            "[ERROR] .well-known file at: '",
            url,
            "' returned incorrect status code ",
            code.as_str(),
            ". We expect Status Code 200.",
        ),
    )
}

/// Builds the invalid-format notice.
pub fn err_invalid_notice(url: &str) -> (m: OutboundMessage)
    ensures
        m@ == plain(text_err_invalid(url@)),
{
    notice_plain_string(
        concat3("[ERROR] .well-known file at: '", url, "' has invalid format."),
    )
}

/// Builds the admin-mismatch notice, naming the requester and the declared
/// admins.
pub fn err_admin_notice(url: &str, sender: &str, admins: &Vec<String>) -> (m: OutboundMessage)
    ensures
        m@ == plain(text_err_admin(url@, sender@, seq_views(admins@))),
{
    let mut s = concat5(
        "[ERROR] According to the .well-known file at: '",
        url,
        "' you are not any of the admins of this homeserver. Your mxid: ",
        sender,
        ", Admins in the .well-known config: ",
    );
    let joined = join_comma(admins);
    s.append(joined.as_str());
    notice_plain_string(s)
}

/// Builds the unreachable-server-name notice.
pub fn err_server_name_notice(addr: &str) -> (m: OutboundMessage)
    ensures
        m@ == plain(text_err_server_name(addr@)),
{
    notice_plain_string(
        concat3(
            "[ERROR] The server_name field from the .well-known file ('",
            addr,
            "') cannot be reached.",
        ),
    )
}

/// Builds the unreachable-url notice.
pub fn err_url_notice(addr: &str) -> (m: OutboundMessage)
    ensures
        m@ == plain(text_err_url(addr@)),
{
    notice_plain_string(
        concat3(
            "[ERROR] The url field from the .well-known file ('",
            addr,
            "') cannot be reached.",
        ),
    )
}

/// Builds the unreachable-logo notice.
pub fn err_logo_notice(addr: &str) -> (m: OutboundMessage)
    ensures
        m@ == plain(text_err_logo(addr@)),
{
    notice_plain_string(
        concat3(
            "[ERROR] The logo_url field from the .well-known file ('",
            addr,
            "') cannot be reached.",
        ),
    )
}

/// Builds the admin-room broadcast text.
pub fn broadcast_text(server: &str) -> (r: String)
    ensures
        r@ == text_broadcast(server@),
{
    let mut s = "@room New Server needs verification: ".to_owned();
    s.append(server);
    s
}

} // verus!
