//! Laws of what is asked of the drive and how its replies are read.

use vstd::prelude::*;

#[allow(unused_imports)]
use crate::adapters::adapter_115::{
    accepted, backoff, entries_of, entries_view, entry_of, folder_name_of, message_of,
    numbered_failure, path_in, placed, quota_of, size_of, Adapter115, FileEntry, FileEntryView,
    QuotaInfo, Retry, ShareResult,
};
#[allow(unused_imports)]
use crate::call::{pairs_view, Call, Method};
#[allow(unused_imports)]
use crate::json::{entry, field, id_of, int_of, items_of, text_of, Json};
#[allow(unused_imports)]
use crate::text::number::{decimal, decimal_int, signed_value};
#[allow(unused_imports)]
use crate::text::{joined, list_view};

verus! {

/// A transfer names the share with its code, the files, and the folder that they go to.
pub proof fn transfers_name_share_files_and_folder(
    adapter: &Adapter115,
    share: &str,
    code: Option<&str>,
    ids: &[String],
    target: &str,
    r: Call,
)
    requires
        call_ensures(Adapter115::transfer_share, (adapter, share, code, ids, target), r),
    ensures
        r@.method == Method::Post,
        r@.url == "https://webapi.115.com/share/receive"@,
        r@.pairs == seq![
            ("share_code"@, share@),
            (
                "receive_code"@,
                match code {
                    Some(c) => c@,
                    None => Seq::empty(),
                },
            ),
            ("file_id"@, joined(list_view(ids@), seq![','])),
            ("cid"@, target@),
        ],
{
    reveal_strlit("https://webapi.115.com");
    reveal_strlit("/share/receive");
    reveal_strlit("https://webapi.115.com/share/receive");
    reveal_strlit(",");
    assert(","@ =~= seq![',']);
    assert("https://webapi.115.com"@ + "/share/receive"@ =~= "https://webapi.115.com/share/receive"@);
}

/// A folder is created under its name in the folder that is to hold it.
pub proof fn folders_are_created_in_their_parents(
    adapter: &Adapter115,
    parent: &str,
    name: &str,
    r: Call,
)
    requires
        call_ensures(Adapter115::create_folder, (adapter, parent, name), r),
    ensures
        r@.method == Method::Post,
        r@.url == "https://proapi.115.com/open/folder/add"@,
        r@.pairs == seq![("file_name"@, name@), ("pid"@, parent@)],
{
    reveal_strlit("https://proapi.115.com");
    reveal_strlit("/open/folder/add");
    reveal_strlit("https://proapi.115.com/open/folder/add");
    assert("https://proapi.115.com"@ + "/open/folder/add"@ =~= "https://proapi.115.com/open/folder/add"@);
}

/// Files are moved to the folder that is named.
pub proof fn files_are_moved_to_the_folder(
    adapter: &Adapter115,
    ids: &[String],
    target: &str,
    r: Call,
)
    requires
        call_ensures(Adapter115::move_files, (adapter, ids, target), r),
    ensures
        r@.method == Method::Post,
        r@.url == "https://proapi.115.com/open/ufile/move"@,
        r@.pairs == seq![
            ("file_ids"@, joined(list_view(ids@), seq![','])),
            ("to_cid"@, target@),
        ],
{
    reveal_strlit("https://proapi.115.com");
    reveal_strlit("/open/ufile/move");
    reveal_strlit("https://proapi.115.com/open/ufile/move");
    reveal_strlit(",");
    assert(","@ =~= seq![',']);
    assert("https://proapi.115.com"@ + "/open/ufile/move"@ =~= "https://proapi.115.com/open/ufile/move"@);
}

/// A file is renamed by its identifier.
pub proof fn files_are_renamed_by_identifier(
    adapter: &Adapter115,
    id: &str,
    name: &str,
    r: Call,
)
    requires
        call_ensures(Adapter115::rename_file, (adapter, id, name), r),
    ensures
        r@.method == Method::Post,
        r@.url == "https://proapi.115.com/open/ufile/update"@,
        r@.pairs == seq![("file_id"@, id@), ("file_name"@, name@)],
{
    reveal_strlit("https://proapi.115.com");
    reveal_strlit("/open/ufile/update");
    reveal_strlit("https://proapi.115.com/open/ufile/update");
    assert("https://proapi.115.com"@ + "/open/ufile/update"@ =~= "https://proapi.115.com/open/ufile/update"@);
}

/// A share is made of the files that are named, in the order of their names.
pub proof fn shares_are_made_of_files(
    adapter: &Adapter115,
    ids: &[String],
    r: Call,
)
    requires
        call_ensures(Adapter115::create_share, (adapter, ids), r),
    ensures
        r@.method == Method::Post,
        r@.url == "https://webapi.115.com/share/send"@,
        r@.pairs == seq![
            ("file_ids"@, joined(list_view(ids@), seq![','])),
            ("ignore_warn"@, "1"@),
            ("is_asc"@, "1"@),
            ("order"@, "file_name"@),
        ],
{
    reveal_strlit("https://webapi.115.com");
    reveal_strlit("/share/send");
    reveal_strlit("https://webapi.115.com/share/send");
    reveal_strlit(",");
    assert(","@ =~= seq![',']);
    assert("https://webapi.115.com"@ + "/share/send"@ =~= "https://webapi.115.com/share/send"@);
}

/// A share is cancelled by its code.
pub proof fn shares_are_cancelled_by_code(
    adapter: &Adapter115,
    code: &str,
    r: Call,
)
    requires
        call_ensures(Adapter115::cancel_share, (adapter, code), r),
    ensures
        r@.method == Method::Post,
        r@.url == "https://webapi.115.com/share/updateshare"@,
        r@.pairs == seq![("share_code"@, code@), ("action"@, "cancel"@)],
{
    reveal_strlit("https://webapi.115.com");
    reveal_strlit("/share/updateshare");
    reveal_strlit("https://webapi.115.com/share/updateshare");
    assert("https://webapi.115.com"@ + "/share/updateshare"@ =~= "https://webapi.115.com/share/updateshare"@);
}

/// The session is asked for with nothing but the headers.
pub proof fn sessions_are_asked_for(
    adapter: &Adapter115,
    r: Call,
)
    requires
        call_ensures(Adapter115::check_session, (adapter,), r),
    ensures
        r@.method == Method::Post,
        r@.url == "https://webapi.115.com/user/space_summury"@,
        r@.pairs.len() == 0,
{
    reveal_strlit("https://webapi.115.com");
    reveal_strlit("/user/space_summury");
    reveal_strlit("https://webapi.115.com/user/space_summury");
    assert("https://webapi.115.com"@ + "/user/space_summury"@ =~= "https://webapi.115.com/user/space_summury"@);
}

/// The quota is asked for with nothing but the headers.
pub proof fn quotas_are_asked_for(
    adapter: &Adapter115,
    r: Call,
)
    requires
        call_ensures(Adapter115::get_quota, (adapter,), r),
    ensures
        r@.method == Method::Get,
        r@.url == "https://proapi.115.com/android/user/space_info"@,
        r@.pairs.len() == 0,
{
    reveal_strlit("https://proapi.115.com");
    reveal_strlit("/android/user/space_info");
    reveal_strlit("https://proapi.115.com/android/user/space_info");
    assert("https://proapi.115.com"@ + "/android/user/space_info"@ =~= "https://proapi.115.com/android/user/space_info"@);
}

/// Each file that is deleted is named once, by its identifier: alone, or under its place in the list.
pub proof fn deletions_name_each_file(adapter: &Adapter115, ids: &[String], r: Call)
    requires
        call_ensures(Adapter115::delete_files, (adapter, ids), r),
    ensures
        r@.method == Method::Post,
        r@.url == "https://webapi.115.com/rb/delete"@,
        r@.pairs.len() == ids@.len(),
        ids@.len() == 1 ==> r@.pairs[0] == (seq!['f', 'i', 'd'], ids@[0]@),
        ids@.len() != 1 ==> forall|i: int|
            0 <= i < ids@.len() ==> #[trigger] r@.pairs[i] == (
                seq!['f', 'i', 'd', '['] + decimal(i as nat) + seq![']'],
                ids@[i]@,
            ),
{
    reveal_strlit("https://webapi.115.com");
    reveal_strlit("/rb/delete");
    reveal_strlit("https://webapi.115.com/rb/delete");
    reveal_strlit("fid");
    reveal_strlit("fid[");
    reveal_strlit("]");
    assert("https://webapi.115.com"@ + "/rb/delete"@ =~= "https://webapi.115.com/rb/delete"@);
    assert("fid"@ =~= seq!['f', 'i', 'd']);
    assert("fid["@ =~= seq!['f', 'i', 'd', '[']);
    assert("]"@ =~= seq![']']);
}

/// The cookie is handed over exactly if there is one.
pub proof fn cookies_are_handed_over(adapter: &Adapter115, r: Vec<(String, String)>)
    requires
        call_ensures(Adapter115::headers, (adapter,), r),
    ensures
        r@.len() == if adapter.cookie@.len() == 0 {
            1int
        } else {
            2
        },
        r@[0].0@ == "User-Agent"@,
        r@[0].1@ == "Mozilla/5.0 (compatible; hidden/1.0)"@,
        adapter.cookie@.len() > 0 ==> r@[1].0@ == "Cookie"@ && r@[1].1@ == adapter.cookie@,
{
    let v = pairs_view(r@);
    assert(v.len() == r@.len());
    assert(v[0] == (r@[0].0@, r@[0].1@));
    if adapter.cookie@.len() > 0 {
        assert(v[1] == (r@[1].0@, r@[1].1@));
    }
}

/// Between two requests as much time passes as the configuration asks for, and no more is waited
/// than is left of it.
pub proof fn requests_keep_their_distance(adapter: &Adapter115, elapsed: u128, r: u128)
    requires
        call_ensures(Adapter115::rate_limit, (adapter, elapsed), r),
    ensures
        elapsed + r >= adapter.config.account_115_request_interval_ms * 1000000,
        r > 0 ==> elapsed + r == adapter.config.account_115_request_interval_ms * 1000000,
{
}

/// A request is tried again as often as the configuration says, with the number of the next attempt
/// and a wait that doubles from one attempt to the next, from two seconds up to sixteen.
pub proof fn requests_are_tried_again(adapter: &Adapter115, attempt: u32, r: Retry)
    requires
        call_ensures(Adapter115::retry, (adapter, attempt), r),
    ensures
        r is GiveUp <==> attempt >= adapter.config.account_115_retry_times,
        r matches Retry::After { attempt: next, wait_secs } ==> {
            &&& next == attempt + 1
            &&& wait_secs == backoff(next as int)
        },
        backoff(1) == 2,
        forall|n: int| 1 <= n < 4 ==> #[trigger] backoff(n + 1) == 2 * backoff(n),
        forall|n: int| n >= 4 ==> #[trigger] backoff(n) == 16,
{
}

/// A field of an object is what stands under its name for the first time; what is no object has no
/// fields.
pub proof fn fields_stand_under_their_names(object: Vec<(String, Json)>, key: Seq<char>, k: int)
    requires
        0 <= k <= object@.len(),
        forall|i: int| 0 <= i < k ==> (#[trigger] object@[i]).0@ != key,
        k < object@.len() ==> object@[k].0@ == key,
    ensures
        field(Json::Object(object), key) == if k < object@.len() {
            object@[k].1
        } else {
            Json::Null
        },
        forall|j: Json| !(j is Object) ==> #[trigger] field(j, key) == Json::Null,
{
    lemma_entry(object@, key, k);
}

/// The entry under a name is the first one that has it.
proof fn lemma_entry(entries: Seq<(String, Json)>, key: Seq<char>, k: int)
    requires
        0 <= k <= entries.len(),
        forall|i: int| 0 <= i < k ==> (#[trigger] entries[i]).0@ != key,
        k < entries.len() ==> entries[k].0@ == key,
    ensures
        entry(entries, key) == if k < entries.len() {
            entries[k].1
        } else {
            Json::Null
        },
    decreases k,
{
    if k > 0 {
        assert(entries[0].0@ != key);
        let rest = entries.skip(1);
        assert forall|i: int| 0 <= i < k - 1 implies (#[trigger] rest[i]).0@ != key by {
            assert(rest[i] == entries[i + 1]);
        }
        lemma_entry(rest, key, k - 1);
    }
}

/// The drive accepts a request by a true state, or by one that is a number other than zero.
pub proof fn replies_are_accepted_by_their_state(resp: Json)
    ensures
        accepted(resp) <==> match field(resp, "state"@) {
            Json::Bool(b) => b,
            Json::PosInt(n) => 0 < n <= 0x7fff_ffff_ffff_ffff,
            Json::NegInt(n) => n != 0,
            _ => false,
        },
        field(resp, "msg"@) matches Json::Str(m) ==> message_of(resp) == m@,
        !(field(resp, "msg"@) is Str) ==> message_of(resp) == "unknown"@,
{
}

/// What an entry of a listing tells. Its name, size, identifier and pick code stand under short
/// names or under long ones; the short ones come first. It is a folder if it has no `fid`, or is
/// marked as one; a folder is told by its `cid`, a file by its `fid`. Its path is its name, and the
/// folder that it is in is not told.
pub proof fn entries_tell_what_is_listed(f: Json)
    ensures
        ({
            let e = entry_of(f);
            &&& e.is_dir <==> field(f, "fid"@) is Null || (field(f, "ico"@) matches Json::Str(s)
                && s@ == "folder"@) || int_of(field(f, "is_dir"@)) == Some(1i64)
            &&& field(f, "n"@) matches Json::Str(s) ==> e.name == s@
            &&& !(field(f, "n"@) is Str) ==> (field(f, "file_name"@) matches Json::Str(s) ==> e.name
                == s@)
            &&& !(field(f, "n"@) is Str) && !(field(f, "file_name"@) is Str) ==> e.name.len() == 0
            &&& e.path == e.name
            &&& e.folder_id.len() == 0
            &&& int_of(field(f, "s"@)) matches Some(n) ==> e.size == n
            &&& int_of(field(f, "s"@)) is None ==> (int_of(field(f, "file_size"@)) matches Some(n)
                ==> e.size == n)
            &&& int_of(field(f, "s"@)) is None && int_of(field(f, "file_size"@)) is None ==> e.size
                == 0
            &&& e.is_dir ==> e.file_id == if id_of(field(f, "cid"@)) is Some {
                id_of(field(f, "cid"@))
            } else {
                id_of(field(f, "fid"@))
            }
            &&& !e.is_dir ==> e.file_id == if id_of(field(f, "fid"@)) is Some {
                id_of(field(f, "fid"@))
            } else {
                id_of(field(f, "file_id"@))
            }
            &&& e.pick_code == if id_of(field(f, "pc"@)) is Some {
                id_of(field(f, "pc"@))
            } else {
                id_of(field(f, "pick_code"@))
            }
        }),
{
}

/// A number is told as it is or as a text; an identifier is the text, or the digits of the number.
pub proof fn numbers_and_identifiers_are_read(j: Json)
    ensures
        j matches Json::PosInt(n) ==> id_of(j) == Some(decimal(n as nat)),
        j matches Json::NegInt(n) ==> id_of(j) == Some(decimal_int(n as int)),
        j matches Json::Str(s) ==> id_of(j) == Some(s@),
        !(j is PosInt) && !(j is NegInt) && !(j is Str) ==> id_of(j) is None,
        j matches Json::PosInt(n) ==> (int_of(j) == if n <= 0x7fff_ffff_ffff_ffff {
            Some(n as i64)
        } else {
            None
        }),
        j matches Json::NegInt(n) ==> int_of(j) == Some(n),
        !(j is PosInt) && !(j is NegInt) ==> int_of(j) is None,
        j matches Json::Str(s) ==> (forall|n: i64|
            size_of(j) == Some(n) <==> #[trigger] signed_value(s@) == Some(n as int)),
        !(j is Str) ==> size_of(j) == int_of(j),
{
}

/// What a part of the drive's space is told as: in the data itself, or else under `rt_space_info`.
pub open spec fn told_space(data: Json, part: Seq<char>) -> Option<i64> {
    let here = size_of(field(field(data, part), "size"@));
    if here is Some {
        here
    } else {
        size_of(field(field(field(data, "rt_space_info"@), part), "size"@))
    }
}

/// The quota is what the drive tells of its space, where nothing is told zero; the free space that
/// is not told is what is left of the total.
pub proof fn quotas_tell_the_space(resp: Json)
    ensures
        ({
            let data = if accepted(resp) {
                field(resp, "data"@)
            } else {
                resp
            };
            let q = quota_of(resp);
            &&& told_space(data, "all_total"@) matches Some(n) ==> q.total == n
            &&& told_space(data, "all_total"@) is None ==> q.total == 0
            &&& told_space(data, "all_use"@) matches Some(n) ==> q.used == n
            &&& told_space(data, "all_use"@) is None ==> q.used == 0
            &&& told_space(data, "all_remain"@) matches Some(n) ==> q.free == n
            &&& told_space(data, "all_remain"@) is None && i64::MIN <= q.total - q.used <= i64::MAX
                ==> q.total == q.used + q.free
            &&& told_space(data, "all_remain"@) is None && q.total - q.used > i64::MAX ==> q.free
                == i64::MAX
            &&& told_space(data, "all_remain"@) is None && q.total - q.used < i64::MIN ==> q.free
                == i64::MIN
        }),
{
}

/// A folder is called as the last folder of the path is that the drive tells, or else by its
/// identifier.
pub proof fn folders_are_called_as_the_path_ends(cid: Seq<char>, resp: Json)
    ensures
        ({
            let path = items_of(field(resp, "path"@));
            let name = folder_name_of(cid, resp);
            &&& path.len() == 0 ==> name == cid
            &&& path.len() > 0 ==> {
                let short = text_of(field(path.last(), "n"@));
                match text_of(field(path.last(), "name"@)) {
                    Some(n) => name == if n.len() > 0 {
                        n
                    } else {
                        cid
                    },
                    None => name == if short is Some && short->0.len() > 0 {
                        short->0
                    } else {
                        cid
                    },
                }
            }
        }),
{
}

/// A list of entries is read one by one, in its order.
pub proof fn entries_are_read_in_order(items: Seq<Json>, i: int)
    requires
        0 <= i < items.len(),
    ensures
        entries_of(items).len() == items.len(),
        entries_of(items)[i] == entry_of(items[i]),
{
}

/// What stands in a folder has the path of the folder in front of its name; what stands in none has
/// its name for a path. Nothing else is changed by placing it.
pub proof fn paths_lead_through_folders(entry: FileEntryView, parent: Seq<char>)
    ensures
        parent.len() == 0 ==> placed(entry, parent).path == entry.name,
        parent.len() > 0 ==> placed(entry, parent).path == parent + seq!['/'] + entry.name,
        ({
            let p = placed(entry, parent);
            &&& p.name == entry.name && p.size == entry.size && p.is_dir == entry.is_dir
            &&& p.file_id == entry.file_id && p.pick_code == entry.pick_code
            &&& p.folder_id == entry.folder_id
        }),
        path_in(parent, entry.name) == placed(entry, parent).path,
{
    reveal_strlit("/");
    assert("/"@ =~= seq!['/']);
}

/// A folder was created exactly if the drive accepted the request and tells its identifier, under
/// `file_id` or else under `cid`.
pub proof fn created_folders_are_told(resp: &Json, raw: &str, r: Result<String, String>)
    requires
        call_ensures(Adapter115::create_folder_reply, (resp, raw), r),
    ensures
        ({
            let data = field(*resp, "data"@);
            let id = if id_of(field(data, "file_id"@)) is Some {
                id_of(field(data, "file_id"@))
            } else {
                id_of(field(data, "cid"@))
            };
            &&& r is Ok <==> accepted(*resp) && id is Some && id->0.len() > 0
            &&& r matches Ok(folder) ==> id == Some(folder@)
        }),
{
}

/// A share was made exactly if the drive accepted the request and tells its code; its link leads to
/// the code, and its pick code is the one that is told, or empty.
pub proof fn made_shares_are_told(resp: &Json, raw: &str, r: Result<ShareResult, String>)
    requires
        call_ensures(Adapter115::create_share_reply, (resp, raw), r),
    ensures
        ({
            let data = field(*resp, "data"@);
            let code = id_of(field(data, "share_code"@));
            &&& r is Ok <==> accepted(*resp) && code is Some && code->0.len() > 0
            &&& r matches Ok(share) ==> {
                &&& code == Some(share.share_id@)
                &&& share.share_url@ == "https://115.com/s/"@ + share.share_id@
                &&& id_of(field(data, "receive_code"@)) matches Some(p) ==> share.pick_code@ == p
                &&& id_of(field(data, "receive_code"@)) is None ==> share.pick_code@.len() == 0
            }
        }),
{
}

/// A transfer, and the cancelling of a share, succeed exactly if the drive accepts them.
pub proof fn replies_decide(
    resp: &Json,
    transferred: Result<bool, String>,
    cancelled: Result<(), String>,
)
    requires
        call_ensures(Adapter115::transfer_reply, (resp,), transferred),
        call_ensures(Adapter115::cancel_reply, (resp,), cancelled),
    ensures
        accepted(*resp) ==> transferred == Ok::<bool, String>(true),
        !accepted(*resp) ==> transferred is Err,
        cancelled is Ok <==> accepted(*resp),
{
}

/// What the drive refused is told with the number and the message that it gave; zero where it gave
/// none.
pub proof fn refusals_are_told_with_their_numbers(what: Seq<char>, resp: Json)
    ensures
        ({
            let number: int = match int_of(field(resp, "errno"@)) {
                Some(n) => n as int,
                None => 0,
            };
            numbered_failure(what, resp) == what + " [errno="@ + decimal_int(number) + "]："@
                + message_of(resp)
        }),
{
}

/// Why something did not succeed is told: that it did not, and what the drive said.
pub proof fn refusals_are_told(
    resp: &Json,
    raw: &str,
    transferred: Result<bool, String>,
    cancelled: Result<(), String>,
    created: Result<String, String>,
    shared: Result<ShareResult, String>,
)
    requires
        call_ensures(Adapter115::transfer_reply, (resp,), transferred),
        call_ensures(Adapter115::cancel_reply, (resp,), cancelled),
        call_ensures(Adapter115::create_folder_reply, (resp, raw), created),
        call_ensures(Adapter115::create_share_reply, (resp, raw), shared),
    ensures
        transferred matches Err(e) ==> e@ == numbered_failure("转存失败"@, *resp),
        cancelled matches Err(e) ==> e@ == "取消分享失败："@ + message_of(*resp),
        created matches Err(e) ==> !accepted(*resp) ==> e@ == "创建文件夹失败："@ + message_of(
            *resp,
        ),
        created matches Err(e) ==> accepted(*resp) ==> e@
            == "创建文件夹成功但响应缺少文件夹 ID："@ + raw@,
        shared matches Err(e) ==> !accepted(*resp) ==> e@ == "创建分享失败："@ + message_of(*resp),
        shared matches Err(e) ==> accepted(*resp) ==> e@
            == "创建分享成功但响应缺少 share_code："@ + raw@,
{
}

/// A session is valid exactly if the drive answers and accepts it; the quota is read from the answer
/// as it is.
pub proof fn answers_are_read_as_they_are(
    resp: &Json,
    valid: bool,
    unanswered: bool,
    quota: QuotaInfo,
    listed: Vec<FileEntry>,
)
    requires
        call_ensures(Adapter115::session_reply, (Some(resp),), valid),
        call_ensures(Adapter115::session_reply, (None,), unanswered),
        call_ensures(Adapter115::quota_reply, (resp,), quota),
        call_ensures(Adapter115::list_reply, (resp,), listed),
    ensures
        valid == accepted(*resp),
        !unanswered,
        quota == quota_of(*resp),
        entries_view(listed@) == entries_of(items_of(field(*resp, "data"@))),
{
}

/// The root folder has a name of its own; any other folder is asked for, by its identifier.
pub proof fn folders_but_the_root_are_asked_for(
    adapter: &Adapter115,
    cid: &str,
    resp: &Json,
    r: Result<String, Call>,
    name: String,
)
    requires
        call_ensures(Adapter115::get_folder_name, (adapter, cid), r),
        call_ensures(Adapter115::folder_name_reply, (cid, resp), name),
    ensures
        r is Ok <==> cid@.len() == 0 || cid@ == seq!['0'],
        r matches Ok(n) ==> n@ == "根目录"@,
        r matches Err(call) ==> {
            &&& call@.method == Method::Get
            &&& call@.url == "https://webapi.115.com/files"@
            &&& call@.pairs == seq![
                ("cid"@, cid@),
                ("show_dir"@, "1"@),
                ("limit"@, "1"@),
                ("offset"@, "0"@),
                ("aid"@, "1"@),
            ]
        },
        name@ == folder_name_of(cid@, *resp),
{
    reveal_strlit("0");
    assert("0"@ =~= seq!['0']);
    reveal_strlit("https://webapi.115.com");
    reveal_strlit("/files");
    reveal_strlit("https://webapi.115.com/files");
    assert("https://webapi.115.com"@ + "/files"@ =~= "https://webapi.115.com/files"@);
}

} // verus!
