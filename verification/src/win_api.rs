//! The native-OS facade: identity enumeration, special-folder resolution,
//! process listing and termination, and shell lifecycle.
//!
//! Each operation's platform or bridge call is issued by the surrounding
//! binary; the raw outcome — a status and a fixed buffer, an optional
//! allocated buffer, an optional record array — arrives here as plain values,
//! and the functions of this module decide what the operation returns.

use vstd::prelude::*;

use crate::sid::is_sid_string;
use crate::sid::is_valid_sid;
use crate::text::decimal_chars;
use crate::text::u32_to_decimal;
use crate::wide::decode_wide;
use crate::wide::utf16_lossy;
use crate::wide::wide_prefix;

verus! {

/// The top-level account or process enumeration was rejected by the platform;
/// fatal to that call only.
#[derive(Debug, Clone, Copy, PartialEq, Eq, Structural)]
pub struct EnumerationFailure;

/// Child-process creation failed, with the platform's message.
#[derive(Debug)]
pub struct SpawnFailure {
    pub message: String,
}

/// The bridge signaled internal failure; assumed unreachable for a shell
/// restart.
#[derive(Debug, Clone, Copy, PartialEq, Eq, Structural)]
pub struct NativeFault;

/// One local account, resolved to its canonical identifier string.
pub struct AccountIdentity {
    pub account_name: String,
    pub security_id: String,
}

impl AccountIdentity {
    /// Well-formed: a non-empty name and a canonical identifier string.
    pub open spec fn wf(self) -> bool {
        self.account_name@.len() > 0 && is_sid_string(self.security_id@)
    }
}

/// One record of the platform's account enumeration, marshaled to plain
/// values: the record's wide-character name field, and the identifier text
/// produced for it — `None` when the per-account identifier lookup failed.
pub struct RawAccount {
    pub name_units: Vec<u16>,
    pub sid_units: Option<Vec<u16>>,
}

/// The (name, identifier) views one record contributes: none when its lookup
/// failed or a decoded field is not well-formed — that account is skipped and
/// enumeration continues.
pub open spec fn record_identity_views(r: RawAccount) -> Seq<(Seq<char>, Seq<char>)> {
    match r.sid_units {
        Option::None => Seq::empty(),
        Option::Some(su) => {
            let name = utf16_lossy(wide_prefix(r.name_units@));
            let sid = utf16_lossy(wide_prefix(su@));
            if name.len() > 0 && is_sid_string(sid) {
                seq![(name, sid)]
            } else {
                Seq::empty()
            }
        },
    }
}

/// The (name, identifier) views of a whole enumeration, in platform order.
pub open spec fn identities_of(records: Seq<RawAccount>) -> Seq<(Seq<char>, Seq<char>)>
    decreases records.len(),
{
    if records.len() == 0 {
        Seq::empty()
    } else {
        identities_of(records.drop_last()) + record_identity_views(records.last())
    }
}

pub open spec fn id_view(id: AccountIdentity) -> (Seq<char>, Seq<char>) {
    (id.account_name@, id.security_id@)
}

pub open spec fn views_of(ids: Seq<AccountIdentity>) -> Seq<(Seq<char>, Seq<char>)> {
    ids.map_values(|id: AccountIdentity| id_view(id))
}

/// Every entry an enumeration yields has a non-empty name and an identifier
/// matching the canonical grammar.
pub proof fn lemma_identities_wf(records: Seq<RawAccount>)
    ensures
        forall|k: int|
            0 <= k < identities_of(records).len() ==> (#[trigger] identities_of(
                records,
            )[k]).0.len() > 0 && is_sid_string(identities_of(records)[k].1),
    decreases records.len(),
{
    if records.len() > 0 {
        lemma_identities_wf(records.drop_last());
        let pre = identities_of(records.drop_last());
        let tail = record_identity_views(records.last());
        assert forall|k: int|
            0 <= k < identities_of(records).len() implies (#[trigger] identities_of(
            records,
        )[k]).0.len() > 0 && is_sid_string(identities_of(records)[k].1) by {
            if k < pre.len() {
                assert(identities_of(records)[k] == pre[k]);
            } else {
                assert(identities_of(records)[k] == tail[k - pre.len()]);
            }
        }
    }
}

/// Resolve the outcome of the platform's account enumeration. A rejected
/// top-level call (`None`) is fatal to the whole operation; otherwise each
/// record's name field is decoded, its identifier text is decoded and held to
/// the canonical grammar, and the accounts that fail are skipped. Return
/// order follows platform enumeration order.
pub fn get_all_user_sids(outcome: Option<Vec<RawAccount>>) -> (r: Result<
    Vec<AccountIdentity>,
    EnumerationFailure,
>)
    ensures
        r is Err <==> outcome is None,
        r matches Ok(ids) ==> views_of(ids@) == identities_of(outcome.unwrap()@),
        r matches Ok(ids) ==> forall|k: int| 0 <= k < ids@.len() ==> (#[trigger] ids@[k]).wf(),
{
    match outcome {
        Option::None => Err(EnumerationFailure),
        Option::Some(records) => {
            let mut ids: Vec<AccountIdentity> = Vec::new();
            let mut i: usize = 0;
            while i < records.len()
                invariant
                    0 <= i <= records@.len(),
                    views_of(ids@) == identities_of(records@.take(i as int)),
                    forall|k: int| 0 <= k < ids@.len() ==> (#[trigger] ids@[k]).wf(),
                decreases records@.len() - i,
            {
                let ghost prev = ids@;
                match &records[i].sid_units {
                    Option::None => {},
                    Option::Some(su) => {
                        let name = decode_wide(&records[i].name_units);
                        let sid = decode_wide(su);
                        if name.unicode_len() > 0 && is_valid_sid(sid.as_str()) {
                            let id = AccountIdentity { account_name: name, security_id: sid };
                            ids.push(id);
                            proof {
                                assert(views_of(prev.push(id)) =~= views_of(prev).push(
                                    id_view(id),
                                ));
                                assert(views_of(prev).push(id_view(id)) =~= views_of(prev)
                                    + record_identity_views(records@[i as int]));
                            }
                        }
                    },
                }
                proof {
                    assert(records@.take(i + 1).drop_last() =~= records@.take(i as int));
                    assert(records@.take(i + 1).last() == records@[i as int]);
                    assert(views_of(ids@) =~= identities_of(records@.take(i + 1)));
                }
                i = i + 1;
            }
            proof {
                assert(records@.take(records@.len() as int) =~= records@);
            }
            Ok(ids)
        },
    }
}

/// The closed set of per-user special storage categories.
#[derive(Debug, Clone, Copy, PartialEq, Eq, Structural)]
pub enum SpecialFolder {
    LocalAppData,
    RoamingAppData,
    LocalLow,
    ApplicationRoot,
}

/// What the platform answered a folder query with. Three categories use the
/// legacy fixed-capacity call (a status and the buffer it filled); one uses
/// the variable-length allocation call (`None` when it failed); the
/// application root needs no native call, only the local data root.
pub enum FolderReply {
    Fixed(i32, Vec<u16>),
    Allocated(Option<Vec<u16>>),
    LocalRoot(Option<String>),
}

/// What a fixed-capacity folder call resolves to: the decoded buffer on a
/// success status, absence otherwise. A path that exceeded the capacity has
/// no terminator and arrives truncated — a bounded limitation, not an error.
pub open spec fn fixed_folder_result(status: i32, buf: Seq<u16>) -> Option<Seq<char>> {
    if status >= 0 {
        Option::Some(utf16_lossy(wide_prefix(buf)))
    } else {
        Option::None
    }
}

/// What folder resolution returns: a function of the category and the
/// platform's answer alone. Every failure cause is absence; a reply of the
/// wrong shape for the category resolves to nothing.
pub open spec fn spec_resolve(folder: SpecialFolder, reply: FolderReply) -> Option<Seq<char>> {
    match (folder, reply) {
        (SpecialFolder::LocalAppData, FolderReply::Fixed(status, buf)) => fixed_folder_result(
            status,
            buf@,
        ),
        (SpecialFolder::RoamingAppData, FolderReply::Fixed(status, buf)) => fixed_folder_result(
            status,
            buf@,
        ),
        (SpecialFolder::LocalLow, FolderReply::Allocated(units)) => match units {
            Option::None => Option::None,
            Option::Some(u) => Option::Some(utf16_lossy(wide_prefix(u@))),
        },
        (SpecialFolder::ApplicationRoot, FolderReply::LocalRoot(root)) => match root {
            Option::None => Option::None,
            Option::Some(p) => Option::Some(p@ + "\\"@ + "johma_windows_enhanced"@),
        },
        _ => Option::None,
    }
}

fn resolve_fixed(status: i32, buf: &Vec<u16>) -> (r: Option<String>)
    ensures
        r is Some <==> status >= 0,
        r matches Some(p) ==> p@ == utf16_lossy(wide_prefix(buf@)),
{
    if status >= 0 {
        Some(decode_wide(buf))
    } else {
        None
    }
}

/// Resolve a special-folder category from the platform's answer.
pub fn resolve(folder: SpecialFolder, reply: FolderReply) -> (r: Option<String>)
    ensures
        r is Some <==> spec_resolve(folder, reply) is Some,
        r matches Some(p) ==> p@ == spec_resolve(folder, reply).unwrap(),
{
    match (folder, reply) {
        (SpecialFolder::LocalAppData, FolderReply::Fixed(status, buf)) => resolve_fixed(
            status,
            &buf,
        ),
        (SpecialFolder::RoamingAppData, FolderReply::Fixed(status, buf)) => resolve_fixed(
            status,
            &buf,
        ),
        (SpecialFolder::LocalLow, FolderReply::Allocated(units)) => match units {
            Option::None => None,
            Option::Some(u) => Some(decode_wide(&u)),
        },
        (SpecialFolder::ApplicationRoot, FolderReply::LocalRoot(root)) => match root {
            Option::None => None,
            Option::Some(p) => Some(app_folder_under(p.as_str())),
        },
        _ => None,
    }
}

/// Resolution is stateless and read-only: it depends on the category and the
/// platform's answer alone, so two resolutions in one session — the platform
/// answering both alike — return identical paths.
pub proof fn lemma_resolve_idempotent(
    folder: SpecialFolder,
    first: FolderReply,
    second: FolderReply,
)
    requires
        first == second,
    ensures
        spec_resolve(folder, first) == spec_resolve(folder, second),
{
}

/// Resolve the local application-data folder from the platform's
/// fixed-capacity call: the status it returned and the buffer it filled.
pub fn get_local_appdata(status: i32, buf: Vec<u16>) -> (r: Option<String>)
    ensures
        r is Some <==> status >= 0,
        r matches Some(p) ==> p@ == utf16_lossy(wide_prefix(buf@)),
{
    resolve_fixed(status, &buf)
}

/// Resolve the roaming application-data folder from the platform's
/// fixed-capacity call.
pub fn get_roaming(status: i32, buf: Vec<u16>) -> (r: Option<String>)
    ensures
        r is Some <==> status >= 0,
        r matches Some(p) ==> p@ == utf16_lossy(wide_prefix(buf@)),
{
    resolve_fixed(status, &buf)
}

/// Resolve the application-data folder from the platform's fixed-capacity
/// call.
pub fn get_appdata(status: i32, buf: Vec<u16>) -> (r: Option<String>)
    ensures
        r is Some <==> status >= 0,
        r matches Some(p) ==> p@ == utf16_lossy(wide_prefix(buf@)),
{
    resolve_fixed(status, &buf)
}

/// Resolve the local application-data folder for another account's token;
/// the token only steers the platform call, whose outcome arrives here.
pub fn get_local_appdata_with_token(status: i32, buf: Vec<u16>) -> (r: Option<String>)
    ensures
        r is Some <==> status >= 0,
        r matches Some(p) ==> p@ == utf16_lossy(wide_prefix(buf@)),
{
    resolve_fixed(status, &buf)
}

/// Resolve the low-integrity local folder from the platform's
/// variable-length allocation call: the buffer whose ownership the call
/// transferred (already copied out and released), `None` when it failed.
pub fn get_local_low(units: Option<Vec<u16>>) -> (r: Option<String>)
    ensures
        r is Some <==> units is Some,
        r matches Some(p) ==> p@ == utf16_lossy(wide_prefix(units.unwrap()@)),
{
    match units {
        Option::None => None,
        Option::Some(u) => Some(decode_wide(&u)),
    }
}

/// Relies on dirs::data_local_dir: the host's per-application local data
/// root, when it provides one; the path depends on the host configuration.
#[verifier::external_body]
fn data_local_dir_string() -> (r: Option<String>) {
    dirs::data_local_dir().map(|p| p.to_string_lossy().into_owned())
}

/// The fixed folder name the application keeps under the local data root.
pub fn app_dir_name() -> (r: &'static str)
    ensures
        r@ == "johma_windows_enhanced"@,
{
    "johma_windows_enhanced"
}

/// `s` ends in `suffix`.
pub open spec fn ends_with(s: Seq<char>, suffix: Seq<char>) -> bool {
    s.len() >= suffix.len() && s.subrange(s.len() - suffix.len(), s.len() as int) == suffix
}

/// The application-root folder under a given local data root: the root joined
/// with the fixed application folder name. Pure computation — no native call.
pub fn app_folder_under(root: &str) -> (r: String)
    ensures
        r@ == root@ + "\\"@ + "johma_windows_enhanced"@,
{
    let mut s = root.to_owned();
    s.append("\\");
    s.append(app_dir_name());
    s
}

/// Resolve the application-root folder: the local data root joined with the
/// fixed folder name, `None` when the host provides no root.
pub fn get_app_folder() -> (r: Option<String>)
    ensures
        r matches Some(p) ==> ends_with(p@, "\\"@ + "johma_windows_enhanced"@),
{
    match data_local_dir_string() {
        Option::None => None,
        Option::Some(root) => {
            let p = app_folder_under(root.as_str());
            proof {
                let suf = "\\"@ + "johma_windows_enhanced"@;
                assert(p@.subrange(p@.len() - suf.len(), p@.len() as int) =~= suf);
            }
            Some(p)
        },
    }
}

/// The audit of Native Bridge array ownership across a session: how many
/// arrays the allocate call handed out, and how many went back through the
/// matching free call.
#[derive(Debug, Clone, Copy, PartialEq, Eq, Structural)]
pub struct BridgeAudit {
    pub allocations: u64,
    pub releases: u64,
}

impl BridgeAudit {
    /// No leak and no double free: every array handed out went back exactly
    /// once.
    pub open spec fn balanced(self) -> bool {
        self.allocations == self.releases
    }

    pub fn new() -> (r: BridgeAudit)
        ensures
            r.allocations == 0,
            r.releases == 0,
            r.balanced(),
    {
        BridgeAudit { allocations: 0, releases: 0 }
    }
}

/// What one listing interaction does to the audit: a null reply allocates
/// nothing; an array reply is allocated once and released once, even when it
/// holds zero entries.
pub open spec fn audit_step(a: BridgeAudit, got_array: bool) -> BridgeAudit {
    if got_array {
        BridgeAudit {
            allocations: (a.allocations + 1) as u64,
            releases: (a.releases + 1) as u64,
        }
    } else {
        a
    }
}

/// The audit after a whole sequence of listing interactions.
pub open spec fn audit_run(a: BridgeAudit, replies: Seq<bool>) -> BridgeAudit
    decreases replies.len(),
{
    if replies.len() == 0 {
        a
    } else {
        audit_step(audit_run(a, replies.drop_last()), replies.last())
    }
}

/// Across any sequence of listing calls, a balanced audit stays balanced: the
/// number of free calls equals the number of allocate calls.
pub proof fn lemma_audit_run_balanced(a: BridgeAudit, replies: Seq<bool>)
    requires
        a.balanced(),
    ensures
        audit_run(a, replies).balanced(),
    decreases replies.len(),
{
    if replies.len() > 0 {
        lemma_audit_run_balanced(a, replies.drop_last());
    }
}

/// The Native Bridge's answer to the listing call: `Null` when the allocation
/// call returned the null sentinel, otherwise the array's entries, copied out
/// before the array goes back through the free call.
pub enum BridgeReply {
    Null,
    Pids(Vec<u32>),
}

impl BridgeReply {
    pub open spec fn got_array(self) -> bool {
        self is Pids
    }
}

/// List the live process identifiers from the bridge's answer: best effort,
/// an empty collection — not an error — on a null reply. The audit notes one
/// allocation and one release for an array reply, zero entries or not; a null
/// reply allocated nothing, so nothing is freed (and nothing dereferenced).
pub fn list_pids(reply: BridgeReply, audit: &mut BridgeAudit) -> (pids: Vec<u32>)
    requires
        old(audit).allocations < u64::MAX,
        old(audit).releases < u64::MAX,
    ensures
        *final(audit) == audit_step(*old(audit), reply.got_array()),
        old(audit).balanced() ==> final(audit).balanced(),
        pids@ == (match reply {
            BridgeReply::Null => Seq::<u32>::empty(),
            BridgeReply::Pids(v) => v@,
        }),
{
    match reply {
        BridgeReply::Null => Vec::new(),
        BridgeReply::Pids(v) => {
            audit.allocations = audit.allocations + 1;
            audit.releases = audit.releases + 1;
            v
        },
    }
}

/// A utility launch the facade requests: the executable and its arguments.
pub struct UtilityCommand {
    pub program: String,
    pub args: Vec<String>,
}

/// The out-of-process termination request for `pid`: the platform's
/// termination utility, forced, with the identifier rendered in decimal.
pub fn kill_command(pid: u32) -> (cmd: UtilityCommand)
    ensures
        cmd.program@ == "taskkill"@,
        cmd.args@.len() == 3,
        cmd.args@[0]@ == "/F"@,
        cmd.args@[1]@ == "/PID"@,
        cmd.args@[2]@ == decimal_chars(pid as int),
{
    let mut args: Vec<String> = Vec::new();
    args.push("/F".to_owned());
    args.push("/PID".to_owned());
    args.push(u32_to_decimal(pid));
    UtilityCommand { program: "taskkill".to_owned(), args }
}

/// Report a termination request: success exactly when the termination
/// utility's process was created — fire and forget, whether or not the target
/// still exists. `spawn_error` carries the platform's message when creation
/// failed.
pub fn kill_outcome(spawn_error: Option<String>) -> (r: Result<(), SpawnFailure>)
    ensures
        r is Ok <==> spawn_error is None,
        r matches Err(f) ==> f.message@ == spawn_error.unwrap()@,
{
    match spawn_error {
        Option::None => Ok(()),
        Option::Some(message) => Err(SpawnFailure { message }),
    }
}

/// The environment-variables dialog: a known system utility on a supporting
/// host; any other host gets no command and reports the operation
/// unsupported.
pub fn environment_dialog_plan(host_is_windows: bool) -> (r: Option<UtilityCommand>)
    ensures
        r is Some <==> host_is_windows,
        r matches Some(cmd) ==> cmd.program@ == "SystemPropertiesAdvanced.exe"@
            && cmd.args@.len() == 1 && cmd.args@[0]@ == "/c"@,
{
    if host_is_windows {
        let mut args: Vec<String> = Vec::new();
        args.push("/c".to_owned());
        Some(UtilityCommand { program: "SystemPropertiesAdvanced.exe".to_owned(), args })
    } else {
        None
    }
}

/// The task-manager utility, launched with no arguments.
pub fn task_manager_command() -> (cmd: UtilityCommand)
    ensures
        cmd.program@ == "taskmgr"@,
        cmd.args@.len() == 0,
{
    UtilityCommand { program: "taskmgr".to_owned(), args: Vec::new() }
}

/// Report a shell restart: the bridge operation returns nothing and is
/// treated as infallible once invoked.
pub fn restart_shell_report() -> (r: Result<(), NativeFault>)
    ensures
        r is Ok,
{
    Ok(())
}

} // verus!
