//! The cloud drive: what is asked of it, and what its replies mean.

use vstd::prelude::*;

#[allow(unused_imports)]
use crate::call::{Call, CallView, Method};
use crate::config::Config;
#[allow(unused_imports)]
use crate::json::{bool_of, field, first_text, id_of, int_of, items_of, text_of, Json};
#[allow(unused_imports)]
use crate::text::number::{
    decimal, decimal_i64, decimal_int, decimal_u64, parse_i64, signed_value, within,
};
#[allow(unused_imports)]
use crate::text::{
    cat, cat3, copy_option, join, joined, list_view, option_view, or_empty, same, str_view,
};

verus! {

/// Where most requests go.
pub const WEBAPI: &'static str = "https://webapi.115.com";

/// Where the other requests go.
pub const PROAPI: &'static str = "https://proapi.115.com";

/// How many entries of a share are asked for at once.
pub const SHARE_PAGE: u64 = 1000;

/// How many entries of a folder are asked for at once.
pub const FOLDER_PAGE: u64 = 1150;

// ---------------------------------------------------------------------------
// What the drive holds
// ---------------------------------------------------------------------------

/// What a share holds.
#[derive(Debug)]
pub struct ShareInfo {
    pub share_id: String,
    pub total_size: i64,
    pub file_count: usize,
    /// What stands in the share itself.
    pub top: Vec<FileEntry>,
    /// All files and folders, with their paths: what stands in the share itself, and then what
    /// stands in each of the folders, in the order in which the folders stand here.
    pub tree: Vec<FileEntry>,
}

/// A file or a folder.
#[derive(Debug)]
pub struct FileEntry {
    pub name: String,
    pub size: i64,
    pub path: String,
    pub is_dir: bool,
    pub file_id: Option<String>,
    pub pick_code: Option<String>,
    /// The folder of the drive that it stands in, empty where that is not known.
    pub folder_id: String,
}

/// A file or a folder, over sequences of characters.
pub struct FileEntryView {
    pub name: Seq<char>,
    pub size: i64,
    pub path: Seq<char>,
    pub is_dir: bool,
    pub file_id: Option<Seq<char>>,
    pub pick_code: Option<Seq<char>>,
    pub folder_id: Seq<char>,
}

impl View for FileEntry {
    type V = FileEntryView;

    open spec fn view(&self) -> FileEntryView {
        FileEntryView {
            name: self.name@,
            size: self.size,
            path: self.path@,
            is_dir: self.is_dir,
            file_id: option_view(self.file_id),
            pick_code: option_view(self.pick_code),
            folder_id: self.folder_id@,
        }
    }
}

impl Clone for FileEntry {
    fn clone(&self) -> (r: Self)
        ensures
            r == *self,
    {
        FileEntry {
            name: self.name.clone(),
            size: self.size,
            path: self.path.clone(),
            is_dir: self.is_dir,
            file_id: copy_option(&self.file_id),
            pick_code: copy_option(&self.pick_code),
            folder_id: self.folder_id.clone(),
        }
    }
}

/// Files and folders over sequences of characters.
pub open spec fn entries_view(entries: Seq<FileEntry>) -> Seq<FileEntryView> {
    entries.map_values(|e: FileEntry| e@)
}

/// The path of what has a name in a folder with the path `parent`.
pub open spec fn path_in(parent: Seq<char>, name: Seq<char>) -> Seq<char> {
    if parent.len() == 0 {
        name
    } else {
        parent + "/"@ + name
    }
}

/// An entry with its path.
pub open spec fn placed(entry: FileEntryView, parent: Seq<char>) -> FileEntryView {
    FileEntryView { path: path_in(parent, entry.name), ..entry }
}

/// The path of what has a name in a folder with the path `parent`.
pub fn path_below(parent: &str, name: &str) -> (r: String)
    ensures
        r@ == path_in(parent@, name@),
{
    if parent.is_empty() {
        name.to_string()
    } else {
        cat3(parent, "/", name)
    }
}

/// The space of an account, in bytes.
#[derive(Debug, Clone, Copy, PartialEq, Eq, Structural)]
pub struct QuotaInfo {
    pub total: i64,
    pub used: i64,
    pub free: i64,
}

/// A share that was created.
#[derive(Debug)]
pub struct ShareResult {
    pub share_url: String,
    pub pick_code: String,
    pub share_id: String,
}

// ---------------------------------------------------------------------------
// Replies
// ---------------------------------------------------------------------------

/// Whether the drive did what it was asked for: `state` is true, or an integer other than 0.
pub open spec fn accepted(resp: Json) -> bool {
    match bool_of(field(resp, "state"@)) {
        Some(b) => b,
        None => match int_of(field(resp, "state"@)) {
            Some(n) => n != 0,
            None => false,
        },
    }
}

/// Whether the drive did what it was asked for.
pub fn is_accepted(resp: &Json) -> (r: bool)
    ensures
        r == accepted(*resp),
{
    match resp.bool_at("state") {
        Some(b) => b,
        None => match resp.i64_at("state") {
            Some(n) => n != 0,
            None => false,
        },
    }
}

/// What the drive says of a failure.
pub open spec fn message_of(resp: Json) -> Seq<char> {
    match text_of(field(resp, "msg"@)) {
        Some(m) => m,
        None => "unknown"@,
    }
}

/// What the drive says of a failure.
fn message(resp: &Json) -> (r: String)
    ensures
        r@ == message_of(*resp),
{
    match resp.str_at("msg") {
        Some(m) => m.clone(),
        None => "unknown".to_string(),
    }
}

/// The number and the words that the drive gives to a failure, behind `what`.
pub open spec fn numbered_failure(what: Seq<char>, resp: Json) -> Seq<char> {
    let errno: i64 = match int_of(field(resp, "errno"@)) {
        Some(n) => n,
        None => 0,
    };
    what + " [errno="@ + decimal_int(errno as int) + "]："@ + message_of(resp)
}

/// The number and the words that the drive gives to a failure, behind `what`.
pub(crate) fn failure(what: &str, resp: &Json) -> (r: String)
    ensures
        r@ == numbered_failure(what@, *resp),
{
    let errno: i64 = match resp.i64_at("errno") {
        Some(n) => n,
        None => 0,
    };
    let head = cat3(what, " [errno=", decimal_i64(errno).as_str());
    cat3(head.as_str(), "]：", message(resp).as_str())
}

/// Whether an item of a listing is a folder: it has no file identifier, or is marked as a folder.
pub open spec fn item_is_dir(f: Json) -> bool {
    ||| field(f, "fid"@) == Json::Null
    ||| text_of(field(f, "ico"@)) == Some("folder"@)
    ||| int_of(field(f, "is_dir"@)) == Some(1i64)
}

/// The first identifier that is there, of two.
pub open spec fn first_id(a: Json, b: Json) -> Option<Seq<char>> {
    if id_of(a) is Some {
        id_of(a)
    } else {
        id_of(b)
    }
}

/// The file or folder that an item of a listing describes. A folder is known by its `cid`, a file
/// by its `fid`.
pub open spec fn entry_of(f: Json) -> FileEntryView {
    let name = match first_text(field(f, "n"@), field(f, "file_name"@)) {
        Some(n) => n,
        None => Seq::empty(),
    };
    FileEntryView {
        name,
        size: match int_of(field(f, "s"@)) {
            Some(n) => n,
            None => match int_of(field(f, "file_size"@)) {
                Some(n) => n,
                None => 0,
            },
        },
        path: name,
        is_dir: item_is_dir(f),
        file_id: if item_is_dir(f) {
            first_id(field(f, "cid"@), field(f, "fid"@))
        } else {
            first_id(field(f, "fid"@), field(f, "file_id"@))
        },
        pick_code: first_id(field(f, "pc"@), field(f, "pick_code"@)),
        folder_id: Seq::empty(),
    }
}

/// The files and folders that the items of a listing describe.
pub open spec fn entries_of(items: Seq<Json>) -> Seq<FileEntryView> {
    items.map_values(|f: Json| entry_of(f))
}

/// The first identifier that is there, of those under two keys.
fn id_under(f: &Json, first: &str, second: &str) -> (r: Option<String>)
    ensures
        option_view(r) == first_id(field(*f, first@), field(*f, second@)),
{
    match f.id_at(first) {
        Some(id) => Some(id),
        None => f.id_at(second),
    }
}

/// The file or folder that an item of a listing describes.
fn file_entry(f: &Json) -> (r: FileEntry)
    ensures
        r@ == entry_of(*f),
{
    let marked = match f.str_at("ico") {
        Some(ico) => same(ico.as_str(), "folder"),
        None => false,
    };
    let flagged = match f.i64_at("is_dir") {
        Some(n) => n == 1,
        None => false,
    };
    let is_dir = f.null_at("fid") || marked || flagged;
    let name = match f.str_at("n") {
        Some(n) => n.clone(),
        None => match f.str_at("file_name") {
            Some(n) => n.clone(),
            None => String::new(),
        },
    };
    let size: i64 = match f.i64_at("s") {
        Some(n) => n,
        None => match f.i64_at("file_size") {
            Some(n) => n,
            None => 0,
        },
    };
    let file_id = if is_dir {
        id_under(f, "cid", "fid")
    } else {
        id_under(f, "fid", "file_id")
    };
    let path = name.clone();
    FileEntry {
        name,
        size,
        path,
        is_dir,
        file_id,
        pick_code: id_under(f, "pc", "pick_code"),
        folder_id: String::new(),
    }
}

/// Puts the files and folders that the items of a listing describe behind those of `out`.
pub(crate) fn add_entries(items: &Vec<Json>, out: &mut Vec<FileEntry>)
    ensures
        entries_view(final(out)@) == entries_view(old(out)@) + entries_of(items@),
{
    let mut i: usize = 0;
    let ghost before = entries_view(out@);
    assert(entries_of(items@.take(0)) =~= Seq::empty());
    while i < items.len()
        invariant
            i <= items@.len(),
            entries_view(out@) == before + entries_of(items@.take(i as int)),
        decreases items@.len() - i,
    {
        let e = file_entry(&items[i]);
        let ghost all = out@;
        out.push(e);
        assert(entries_view(out@) =~= entries_view(all).push(e@));
        assert(entries_of(items@.take(i + 1)) =~= entries_of(items@.take(i as int)).push(
            entry_of(items@[i as int]),
        ));
        i = i + 1;
    }
    assert(items@.take(i as int) == items@);
}

// ---------------------------------------------------------------------------
// Space
// ---------------------------------------------------------------------------

/// A size, given as an integer or as its digits.
pub open spec fn size_of(j: Json) -> Option<i64> {
    match j {
        Json::Str(s) => match within(signed_value(s@), i64::MIN as int, i64::MAX as int) {
            Some(n) => Some(n as i64),
            None => None,
        },
        _ => int_of(j),
    }
}

/// The size that stands under `part` of the account's data. Some replies wrap the parts once more.
pub open spec fn space_part(data: Json, part: Seq<char>) -> Option<i64> {
    match size_of(field(field(data, part), "size"@)) {
        Some(n) => Some(n),
        None => size_of(field(field(field(data, "rt_space_info"@), part), "size"@)),
    }
}

/// `a - b`, or the nearest number that fits.
pub open spec fn clamped_difference(a: i64, b: i64) -> i64 {
    if a - b > i64::MAX {
        i64::MAX
    } else if a - b < i64::MIN {
        i64::MIN
    } else {
        (a - b) as i64
    }
}

/// The space that a reply tells of. What it leaves out counts as 0, but for the free space, which
/// is then what is not used.
pub open spec fn quota_of(resp: Json) -> QuotaInfo {
    let data = if accepted(resp) {
        field(resp, "data"@)
    } else {
        resp
    };
    let total: i64 = match space_part(data, "all_total"@) {
        Some(n) => n,
        None => 0,
    };
    let used: i64 = match space_part(data, "all_use"@) {
        Some(n) => n,
        None => 0,
    };
    let free: i64 = match space_part(data, "all_remain"@) {
        Some(n) => n,
        None => clamped_difference(total, used),
    };
    QuotaInfo { total, used, free }
}

/// A size, given as an integer or as its digits.
fn size_under(data: &Json, key: &str) -> (r: Option<i64>)
    ensures
        r == size_of(field(*data, key@)),
{
    match data.get(key) {
        Some(Json::Str(s)) => parse_i64(s.as_str()),
        Some(v) => v.as_i64(),
        None => None,
    }
}

/// The size under `part`.
fn part_size(data: &Json, part: &str) -> (r: Option<i64>)
    ensures
        r == size_of(field(field(*data, part@), "size"@)),
{
    match data.get(part) {
        Some(v) => size_under(v, "size"),
        None => None,
    }
}

/// The size that stands under `part` of the account's data.
fn space(data: Option<&Json>, part: &str) -> (r: Option<i64>)
    ensures
        match data {
            Some(d) => r == space_part(*d, part@),
            None => r == space_part(Json::Null, part@),
        },
{
    match data {
        Some(d) => match part_size(d, part) {
            Some(n) => Some(n),
            None => match d.get("rt_space_info") {
                Some(v) => part_size(v, part),
                None => None,
            },
        },
        None => None,
    }
}

// ---------------------------------------------------------------------------
// The adapter
// ---------------------------------------------------------------------------

/// An account of the cloud drive.
pub struct Adapter115 {
    pub cookie: String,
    pub config: Config,
}

/// What is done after a request failed.
#[derive(Debug, Clone, Copy, PartialEq, Eq, Structural)]
pub enum Retry {
    /// Ask again as attempt number `attempt`, after `wait_secs` seconds.
    After { attempt: u32, wait_secs: u64 },
    /// Report the failure.
    GiveUp,
}

/// The seconds to wait before attempt number `attempt`: they double each time, up to 16.
pub open spec fn backoff(attempt: int) -> int {
    if attempt <= 0 {
        1
    } else if attempt == 1 {
        2
    } else if attempt == 2 {
        4
    } else if attempt == 3 {
        8
    } else {
        16
    }
}

/// A request to a path of the drive.
pub open spec fn asked(
    method: Method,
    host: Seq<char>,
    path: Seq<char>,
    pairs: Seq<(Seq<char>, Seq<char>)>,
) -> CallView {
    CallView { method, url: host + path, pairs }
}

/// The pairs that name files to delete: one file by `fid`, several by `fid[0]`, `fid[1]`, and so on.
pub open spec fn deletion_pairs(ids: Seq<Seq<char>>) -> Seq<(Seq<char>, Seq<char>)> {
    if ids.len() == 1 {
        seq![("fid"@, ids[0])]
    } else {
        Seq::new(ids.len(), |i: int| ("fid["@ + decimal(i as nat) + "]"@, ids[i]))
    }
}

/// Whether `r` is the name of the root folder where it is asked for, and otherwise the question for
/// the name of a folder.
pub open spec fn is_name_or_question(cid: Seq<char>, r: Result<String, Call>) -> bool {
    match r {
        Ok(name) => (cid == "0"@ || cid.len() == 0) && name@ == "根目录"@,
        Err(call) => {
            &&& cid != "0"@
            &&& cid.len() != 0
            &&& call@ == asked(
                Method::Get,
                WEBAPI@,
                "/files"@,
                seq![
                    ("cid"@, cid),
                    ("show_dir"@, "1"@),
                    ("limit"@, "1"@),
                    ("offset"@, "0"@),
                    ("aid"@, "1"@),
                ],
            )
        },
    }
}

/// What is sent with every request.
pub open spec fn headers_of(cookie: Seq<char>) -> Seq<(Seq<char>, Seq<char>)> {
    let agent = ("User-Agent"@, "Mozilla/5.0 (compatible; hidden/1.0)"@);
    if cookie.len() == 0 {
        seq![agent]
    } else {
        seq![agent, ("Cookie"@, cookie)]
    }
}

impl Adapter115 {
    /// The adapter for an account.
    pub fn new(cookie: &str, config: Config) -> (r: Self)
        ensures
            r.cookie@ == cookie@,
            r.config == config,
    {
        Adapter115 { cookie: cookie.to_string(), config }
    }

    /// What is sent with every request: the cookie only where there is one.
    pub fn headers(&self) -> (r: Vec<(String, String)>)
        ensures
            crate::call::pairs_view(r@) == headers_of(self.cookie@),
    {
        let mut r: Vec<(String, String)> = Vec::new();
        r.push(("User-Agent".to_string(), "Mozilla/5.0 (compatible; hidden/1.0)".to_string()));
        if !self.cookie.as_str().is_empty() {
            r.push(("Cookie".to_string(), self.cookie.clone()));
        }
        assert(crate::call::pairs_view(r@) =~= headers_of(self.cookie@));
        r
    }

    /// How many nanoseconds to wait before the next request, `elapsed` after the last one: requests
    /// are at least the configured interval apart.
    pub fn rate_limit(&self, elapsed: u128) -> (r: u128)
        ensures
            r == if elapsed < self.config.account_115_request_interval_ms * 1_000_000 {
                self.config.account_115_request_interval_ms * 1_000_000 - elapsed
            } else {
                0
            },
    {
        let interval: u128 = self.config.account_115_request_interval_ms as u128 * 1_000_000;
        if elapsed < interval {
            interval - elapsed
        } else {
            0
        }
    }

    /// What is done after attempt number `attempt` failed, counted from 0: as many further attempts
    /// as are configured.
    pub fn retry(&self, attempt: u32) -> (r: Retry)
        ensures
            r == if attempt < self.config.account_115_retry_times {
                Retry::After { attempt: (attempt + 1) as u32, wait_secs: backoff(attempt + 1) as u64 }
            } else {
                Retry::GiveUp
            },
    {
        if attempt < self.config.account_115_retry_times {
            let next: u32 = attempt + 1;
            let wait_secs: u64 = if next == 1 {
                2
            } else if next == 2 {
                4
            } else if next == 3 {
                8
            } else {
                16
            };
            Retry::After { attempt: next, wait_secs }
        } else {
            Retry::GiveUp
        }
    }

    /// A request to a path of the drive.
    fn ask(method: Method, host: &str, path: &str) -> (r: Call)
        ensures
            r@ == asked(method, host@, path@, Seq::empty()),
    {
        Call::new(method, cat(host, path))
    }

    // ----- the account -----------------------------------------------------

    /// Asks whether the cookie is still good.
    pub fn check_session(&self) -> (r: Call)
        ensures
            r@ == asked(Method::Post, WEBAPI@, "/user/space_summury"@, Seq::empty()),
    {
        Self::ask(Method::Post, WEBAPI, "/user/space_summury")
    }

    /// Whether the cookie is still good. It is not where no reply came.
    pub fn session_reply(resp: Option<&Json>) -> (r: bool)
        ensures
            r == match resp {
                Some(j) => accepted(*j),
                None => false,
            },
    {
        match resp {
            Some(j) => is_accepted(j),
            None => false,
        }
    }

    /// Asks for the space of the account.
    pub fn get_quota(&self) -> (r: Call)
        ensures
            r@ == asked(Method::Get, PROAPI@, "/android/user/space_info"@, Seq::empty()),
    {
        Self::ask(Method::Get, PROAPI, "/android/user/space_info")
    }

    /// The space of the account.
    pub fn quota_reply(resp: &Json) -> (r: QuotaInfo)
        ensures
            r == quota_of(*resp),
    {
        let data = if is_accepted(resp) {
            resp.get("data")
        } else {
            Some(resp)
        };
        let total: i64 = match space(data, "all_total") {
            Some(n) => n,
            None => 0,
        };
        let used: i64 = match space(data, "all_use") {
            Some(n) => n,
            None => 0,
        };
        let free: i64 = match space(data, "all_remain") {
            Some(n) => n,
            None => {
                let difference: i128 = total as i128 - used as i128;
                if difference > i64::MAX as i128 {
                    i64::MAX
                } else if difference < i64::MIN as i128 {
                    i64::MIN
                } else {
                    difference as i64
                }
            },
        };
        QuotaInfo { total, used, free }
    }

    // ----- files -----------------------------------------------------------

    /// Asks to take files of a share over into a folder.
    pub fn transfer_share(
        &self,
        share_code: &str,
        receive_code: Option<&str>,
        file_ids: &[String],
        target_folder_id: &str,
    ) -> (r: Call)
        ensures
            r@ == asked(
                Method::Post,
                WEBAPI@,
                "/share/receive"@,
                seq![
                    ("share_code"@, share_code@),
                    ("receive_code"@, or_empty(str_view(receive_code))),
                    ("file_id"@, joined(list_view(file_ids@), ","@)),
                    ("cid"@, target_folder_id@),
                ],
            ),
    {
        let ids = join(file_ids, ",");
        let code = match receive_code {
            Some(c) => c.to_string(),
            None => String::new(),
        };
        let r = Self::ask(Method::Post, WEBAPI, "/share/receive").with(
            "share_code",
            share_code,
        ).with("receive_code", code.as_str()).with("file_id", ids.as_str()).with(
            "cid",
            target_folder_id,
        );
        assert(r@.pairs =~= seq![
            ("share_code"@, share_code@),
            ("receive_code"@, or_empty(str_view(receive_code))),
            ("file_id"@, joined(list_view(file_ids@), ","@)),
            ("cid"@, target_folder_id@),
        ]);
        r
    }

    /// Whether the files of a share were taken over, or why not.
    pub fn transfer_reply(resp: &Json) -> (r: Result<bool, String>)
        ensures
            match r {
                Ok(done) => done && accepted(*resp),
                Err(e) => !accepted(*resp) && e@ == numbered_failure("转存失败"@, *resp),
            },
    {
        if is_accepted(resp) {
            Ok(true)
        } else {
            Err(failure("转存失败", resp))
        }
    }

    /// Asks for a new folder.
    pub fn create_folder(&self, parent_id: &str, name: &str) -> (r: Call)
        ensures
            r@ == asked(
                Method::Post,
                PROAPI@,
                "/open/folder/add"@,
                seq![("file_name"@, name@), ("pid"@, parent_id@)],
            ),
    {
        let r = Self::ask(Method::Post, PROAPI, "/open/folder/add").with("file_name", name).with(
            "pid",
            parent_id,
        );
        assert(r@.pairs =~= seq![("file_name"@, name@), ("pid"@, parent_id@)]);
        r
    }

    /// The identifier of the new folder, or why there is none. `raw` is the reply as it came.
    pub fn create_folder_reply(resp: &Json, raw: &str) -> (r: Result<String, String>)
        ensures
            ({
                let data = field(*resp, "data"@);
                let id = first_id(field(data, "file_id"@), field(data, "cid"@));
                match r {
                    Ok(folder) => accepted(*resp) && id == Some(folder@) && folder@.len() > 0,
                    Err(e) => if accepted(*resp) {
                        &&& or_empty(id).len() == 0
                        &&& e@ == "创建文件夹成功但响应缺少文件夹 ID："@ + raw@
                    } else {
                        e@ == "创建文件夹失败："@ + message_of(*resp)
                    },
                }
            }),
    {
        if !is_accepted(resp) {
            return Err(cat("创建文件夹失败：", message(resp).as_str()));
        }
        let id = match resp.get("data") {
            Some(data) => id_under(data, "file_id", "cid"),
            None => None,
        };
        match id {
            Some(folder) => if folder.as_str().is_empty() {
                Err(cat("创建文件夹成功但响应缺少文件夹 ID：", raw))
            } else {
                Ok(folder)
            },
            None => Err(cat("创建文件夹成功但响应缺少文件夹 ID：", raw)),
        }
    }

    /// Asks to move files into a folder.
    pub fn move_files(&self, file_ids: &[String], target_folder_id: &str) -> (r: Call)
        ensures
            r@ == asked(
                Method::Post,
                PROAPI@,
                "/open/ufile/move"@,
                seq![
                    ("file_ids"@, joined(list_view(file_ids@), ","@)),
                    ("to_cid"@, target_folder_id@),
                ],
            ),
    {
        let ids = join(file_ids, ",");
        let r = Self::ask(Method::Post, PROAPI, "/open/ufile/move").with(
            "file_ids",
            ids.as_str(),
        ).with("to_cid", target_folder_id);
        assert(r@.pairs =~= seq![
            ("file_ids"@, joined(list_view(file_ids@), ","@)),
            ("to_cid"@, target_folder_id@),
        ]);
        r
    }

    /// Asks to rename a file or a folder.
    pub fn rename_file(&self, file_id: &str, new_name: &str) -> (r: Call)
        ensures
            r@ == asked(
                Method::Post,
                PROAPI@,
                "/open/ufile/update"@,
                seq![("file_id"@, file_id@), ("file_name"@, new_name@)],
            ),
    {
        let r = Self::ask(Method::Post, PROAPI, "/open/ufile/update").with(
            "file_id",
            file_id,
        ).with("file_name", new_name);
        assert(r@.pairs =~= seq![("file_id"@, file_id@), ("file_name"@, new_name@)]);
        r
    }

    /// Asks to delete files or folders; they go to the recycle bin.
    pub fn delete_files(&self, file_ids: &[String]) -> (r: Call)
        ensures
            r@ == asked(
                Method::Post,
                WEBAPI@,
                "/rb/delete"@,
                deletion_pairs(list_view(file_ids@)),
            ),
    {
        let mut r = Self::ask(Method::Post, WEBAPI, "/rb/delete");
        if file_ids.len() == 1 {
            r = r.with("fid", file_ids[0].as_str());
            assert(r@.pairs =~= deletion_pairs(list_view(file_ids@)));
            return r;
        }
        let ghost base = r@;
        let ghost all = list_view(file_ids@);
        let mut i: usize = 0;
        while i < file_ids.len()
            invariant
                i <= file_ids@.len(),
                all == list_view(file_ids@),
                r@ == (CallView { pairs: r@.pairs, ..base }),
                r@.pairs == Seq::new(
                    i as nat,
                    |k: int| ("fid["@ + decimal(k as nat) + "]"@, all[k]),
                ),
            decreases file_ids@.len() - i,
        {
            let key = cat3("fid[", decimal_u64(i as u64).as_str(), "]");
            let ghost before = r@.pairs;
            r = r.with(key.as_str(), file_ids[i].as_str());
            assert(r@.pairs =~= Seq::new(
                (i + 1) as nat,
                |k: int| ("fid["@ + decimal(k as nat) + "]"@, all[k]),
            ));
            i = i + 1;
        }
        assert(r@.pairs =~= deletion_pairs(all));
        r
    }

    /// The entries on a page of what a folder holds.
    pub fn list_reply(resp: &Json) -> (r: Vec<FileEntry>)
        ensures
            entries_view(r@) == entries_of(items_of(field(*resp, "data"@))),
    {
        let mut out: Vec<FileEntry> = Vec::new();
        match resp.items_at("data") {
            Some(items) => add_entries(items, &mut out),
            None => {},
        }
        assert(entries_view(out@) =~= entries_of(items_of(field(*resp, "data"@))));
        out
    }

    /// Asks for the name of a folder. That of the root folder is known.
    pub fn get_folder_name(&self, cid: &str) -> (r: Result<String, Call>)
        ensures
            is_name_or_question(cid@, r),
    {
        if same(cid, "0") || cid.is_empty() {
            return Ok("根目录".to_string());
        }
        let r = Self::ask(Method::Get, WEBAPI, "/files").with("cid", cid).with(
            "show_dir",
            "1",
        ).with("limit", "1").with("offset", "0").with("aid", "1");
        assert(r@.pairs =~= seq![
            ("cid"@, cid@),
            ("show_dir"@, "1"@),
            ("limit"@, "1"@),
            ("offset"@, "0"@),
            ("aid"@, "1"@),
        ]);
        Err(r)
    }

    /// The name of a folder: that of the last item of its path, or else its identifier.
    pub fn folder_name_reply(cid: &str, resp: &Json) -> (r: String)
        ensures
            r@ == folder_name_of(cid@, *resp),
    {
        match resp.items_at("path") {
            Some(items) => {
                let n: usize = items.len();
                if n > 0 {
                    let last = &items[n - 1];
                    let name = match last.str_at("name") {
                        Some(s) => s.clone(),
                        None => match last.str_at("n") {
                            Some(s) => s.clone(),
                            None => String::new(),
                        },
                    };
                    if !name.as_str().is_empty() {
                        return name;
                    }
                }
            },
            None => {},
        }
        cid.to_string()
    }

    // ----- shares ----------------------------------------------------------

    /// Asks for a share of files and folders.
    pub fn create_share(&self, file_ids: &[String]) -> (r: Call)
        ensures
            r@ == asked(
                Method::Post,
                WEBAPI@,
                "/share/send"@,
                seq![
                    ("file_ids"@, joined(list_view(file_ids@), ","@)),
                    ("ignore_warn"@, "1"@),
                    ("is_asc"@, "1"@),
                    ("order"@, "file_name"@),
                ],
            ),
    {
        let ids = join(file_ids, ",");
        let r = Self::ask(Method::Post, WEBAPI, "/share/send").with(
            "file_ids",
            ids.as_str(),
        ).with("ignore_warn", "1").with("is_asc", "1").with("order", "file_name");
        assert(r@.pairs =~= seq![
            ("file_ids"@, joined(list_view(file_ids@), ","@)),
            ("ignore_warn"@, "1"@),
            ("is_asc"@, "1"@),
            ("order"@, "file_name"@),
        ]);
        r
    }

    /// The share that was created, or why there is none. `raw` is the reply as it came.
    pub fn create_share_reply(resp: &Json, raw: &str) -> (r: Result<ShareResult, String>)
        ensures
            ({
                let data = field(*resp, "data"@);
                let code = id_of(field(data, "share_code"@));
                match r {
                    Ok(share) => {
                        &&& accepted(*resp)
                        &&& code == Some(share.share_id@)
                        &&& share.share_id@.len() > 0
                        &&& share.share_url@ == "https://115.com/s/"@ + share.share_id@
                        &&& share.pick_code@ == or_empty(id_of(field(data, "receive_code"@)))
                    },
                    Err(e) => if accepted(*resp) {
                        &&& or_empty(code).len() == 0
                        &&& e@ == "创建分享成功但响应缺少 share_code："@ + raw@
                    } else {
                        e@ == "创建分享失败："@ + message_of(*resp)
                    },
                }
            }),
    {
        if !is_accepted(resp) {
            return Err(cat("创建分享失败：", message(resp).as_str()));
        }
        let code = match resp.get("data") {
            Some(data) => data.id_at("share_code"),
            None => None,
        };
        let receive = match resp.get("data") {
            Some(data) => data.id_at("receive_code"),
            None => None,
        };
        let pick_code = match receive {
            Some(c) => c,
            None => String::new(),
        };
        match code {
            Some(share_id) => if share_id.as_str().is_empty() {
                Err(cat("创建分享成功但响应缺少 share_code：", raw))
            } else {
                let share_url = cat("https://115.com/s/", share_id.as_str());
                Ok(ShareResult { share_url, pick_code, share_id })
            },
            None => Err(cat("创建分享成功但响应缺少 share_code：", raw)),
        }
    }

    /// Asks to cancel a share.
    pub fn cancel_share(&self, share_code: &str) -> (r: Call)
        ensures
            r@ == asked(
                Method::Post,
                WEBAPI@,
                "/share/updateshare"@,
                seq![("share_code"@, share_code@), ("action"@, "cancel"@)],
            ),
    {
        let r = Self::ask(Method::Post, WEBAPI, "/share/updateshare").with(
            "share_code",
            share_code,
        ).with("action", "cancel");
        assert(r@.pairs =~= seq![("share_code"@, share_code@), ("action"@, "cancel"@)]);
        r
    }

    /// Whether a share was cancelled, or why not.
    pub fn cancel_reply(resp: &Json) -> (r: Result<(), String>)
        ensures
            match r {
                Ok(_) => accepted(*resp),
                Err(e) => !accepted(*resp) && e@ == "取消分享失败："@ + message_of(*resp),
            },
    {
        if is_accepted(resp) {
            Ok(())
        } else {
            Err(cat("取消分享失败：", message(resp).as_str()))
        }
    }
}

/// The name of a folder: that of the last item of its path, or else its identifier.
pub open spec fn folder_name_of(cid: Seq<char>, resp: Json) -> Seq<char> {
    let path = items_of(field(resp, "path"@));
    let name = if path.len() == 0 {
        Seq::empty()
    } else {
        or_empty(first_text(field(path.last(), "name"@), field(path.last(), "n"@)))
    };
    if name.len() > 0 {
        name
    } else {
        cid
    }
}

/// Each wait is at least as long as the one before it, and none is longer than sixteen seconds.
pub proof fn waits_grow(a: int, b: int)
    requires
        1 <= a <= b,
    ensures
        2 <= backoff(a) <= backoff(b) <= 16,
{
}

} // verus!
