//! The servers loader: which records of an instance's server list file are
//! shown, and as what.

use crate::sorting::views;
use crate::summaries::bytes_view;
use crate::summaries::InstanceServerSummary;
use crate::summaries::ServerSummaryView;
use crate::worlds::text_view;
use vstd::prelude::*;

verus! {

/// One record of a server list file, as far as the loader reads it.
#[derive(Debug)]
pub struct ServerRecord {
    /// Not zero for a server that is not to be shown.
    pub hidden: Option<i8>,
    pub ip: Option<String>,
    pub name: Option<String>,
    /// The server's icon, a PNG image written in base64.
    pub icon: Option<String>,
}

/// What a record is to the contracts.
pub struct ServerRecordView {
    pub hidden: Option<i8>,
    pub ip: Option<Seq<char>>,
    pub name: Option<Seq<char>>,
    pub icon: Option<Seq<char>>,
}

impl View for ServerRecord {
    type V = ServerRecordView;

    open spec fn view(&self) -> ServerRecordView {
        ServerRecordView {
            hidden: self.hidden,
            ip: text_view(self.ip),
            name: text_view(self.name),
            icon: text_view(self.icon),
        }
    }
}

/// The bytes that a text stands for in base64 with the standard alphabet and
/// padding, as `base64::engine::general_purpose::STANDARD` decodes it; `None`
/// for a text that it rejects.
pub uninterp spec fn base64_decoded(text: Seq<char>) -> Option<Seq<u8>>;

/// Decodes base64. Calls `base64::Engine::decode` on
/// `base64::engine::general_purpose::STANDARD`. Trusted: the result is what
/// that engine gives for this text, and `None` where it reports an error.
#[verifier::external_body]
fn base64_decode(text: &str) -> (r: Option<Vec<u8>>)
    ensures
        r is Some == base64_decoded(text@) is Some,
        r matches Some(bytes) ==> bytes@ == base64_decoded(text@)->0,
{
    base64::Engine::decode(&base64::engine::general_purpose::STANDARD, text).ok()
}

/// The name under which a server without a name is listed.
pub open spec fn unnamed_server() -> Seq<char> {
    "<unnamed>"@
}

/// The icon of a record: what its icon text decodes to, if it has one that
/// decodes.
pub open spec fn server_icon(icon: Option<Seq<char>>) -> Option<Seq<u8>> {
    match icon {
        Some(text) => base64_decoded(text),
        None => None,
    }
}

/// Whether a record is listed: it has an address and is not hidden.
pub open spec fn server_is_listed(record: ServerRecordView) -> bool {
    record.ip is Some && !(record.hidden matches Some(h) && h != 0)
}

/// The summary of a listed record whose icon is `icon`.
pub open spec fn server_summary_of(record: ServerRecordView, icon: Option<Seq<u8>>) -> ServerSummaryView
    recommends
        record.ip is Some,
{
    ServerSummaryView {
        name: match record.name {
            Some(name) => name,
            None => unnamed_server(),
        },
        ip: record.ip->0,
        png_icon: icon,
    }
}

/// The summaries of the first `n` of `records`: of each record that is
/// listed, in order.
pub open spec fn server_summaries(records: Seq<ServerRecordView>, n: nat) -> Seq<ServerSummaryView>
    recommends
        n <= records.len(),
    decreases n,
{
    if n == 0 {
        Seq::empty()
    } else {
        let front = server_summaries(records, (n - 1) as nat);
        if server_is_listed(records[n - 1]) {
            front.push(server_summary_of(records[n - 1], server_icon(records[n - 1].icon)))
        } else {
            front
        }
    }
}

/// The summary of `record` with the icon `icon`; `None` for a record that is
/// not listed.
pub fn server_summary(record: &ServerRecord, icon: Option<Vec<u8>>) -> (r: Option<
    InstanceServerSummary,
>)
    ensures
        r is Some == server_is_listed(record@),
        r matches Some(summary) ==> summary@ == server_summary_of(record@, bytes_view(icon)),
{
    match record.hidden {
        Some(hidden) => {
            if hidden != 0 {
                return None;
            }
        },
        None => {},
    }
    let ip = match &record.ip {
        Some(ip) => ip.clone(),
        None => {
            return None;
        },
    };
    let name = match &record.name {
        Some(name) => name.clone(),
        None => String::from_str("<unnamed>"),
    };
    Some(InstanceServerSummary { name, ip, png_icon: icon })
}

/// The summaries of the records of a server list file: hidden records and
/// records without an address are left out.
pub fn load_servers_summary(records: &Vec<ServerRecord>) -> (r: Vec<InstanceServerSummary>)
    ensures
        views(r@) == server_summaries(views(records@), records@.len()),
{
    let mut out: Vec<InstanceServerSummary> = Vec::new();
    let mut i: usize = 0;
    assert(views(out@) =~= Seq::empty());
    while i < records.len()
        invariant
            i <= records.len(),
            views(out@) == server_summaries(views(records@), i as nat),
        decreases records.len() - i,
    {
        let ghost before = views(out@);
        let icon = match &records[i].icon {
            Some(text) => base64_decode(text.as_str()),
            None => None,
        };
        match server_summary(&records[i], icon) {
            Some(summary) => {
                out.push(summary);
                assert(views(out@) =~= before.push(summary@));
            },
            None => {},
        }
        i += 1;
    }
    out
}

/// The server list of an instance. `is_file` says whether the server list file
/// is there; `records` is what reading it gave, `None` where it could not be
/// read. Without a readable file the list is empty.
pub fn load_servers(is_file: bool, records: Option<Vec<ServerRecord>>) -> (r: Vec<
    InstanceServerSummary,
>)
    ensures
        views(r@) == if is_file && records is Some {
            server_summaries(views(records->0@), records->0@.len())
        } else {
            Seq::empty()
        },
{
    if !is_file {
        let r: Vec<InstanceServerSummary> = Vec::new();
        assert(views(r@) =~= Seq::empty());
        return r;
    }
    match records {
        Some(records) => load_servers_summary(&records),
        None => {
            let r: Vec<InstanceServerSummary> = Vec::new();
            assert(views(r@) =~= Seq::empty());
            r
        },
    }
}

} // verus!
