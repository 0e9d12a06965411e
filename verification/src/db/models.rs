//! Records of the database.

use vstd::prelude::*;

use crate::text::same;

verus! {

// ---------------------------------------------------------------------------
// Enumerations
// ---------------------------------------------------------------------------

/// What kind of resource it is.
#[derive(Debug, Clone, Copy, PartialEq, Eq, Structural)]
pub enum ResourceType {
    Movie,
    Tv,
    Anime,
    Variety,
    Documentary,
    Other,
}

impl ResourceType {
    /// The name under which it is stored.
    pub open spec fn name(self) -> Seq<char> {
        match self {
            ResourceType::Movie => "movie"@,
            ResourceType::Tv => "tv"@,
            ResourceType::Anime => "anime"@,
            ResourceType::Variety => "variety"@,
            ResourceType::Documentary => "documentary"@,
            ResourceType::Other => "other"@,
        }
    }

    /// The name under which it is stored.
    pub fn as_str(self) -> (r: &'static str)
        ensures
            r@ == self.name(),
    {
        match self {
            ResourceType::Movie => "movie",
            ResourceType::Tv => "tv",
            ResourceType::Anime => "anime",
            ResourceType::Variety => "variety",
            ResourceType::Documentary => "documentary",
            ResourceType::Other => "other",
        }
    }

    /// The one that a name stands for.
    pub fn from_name(name: &str) -> (r: Option<ResourceType>)
        ensures
            match r {
                Some(v) => name@ == v.name(),
                None => forall|v: ResourceType| name@ != #[trigger] v.name(),
            },
    {
        if same(name, "movie") {
            Some(ResourceType::Movie)
        } else if same(name, "tv") {
            Some(ResourceType::Tv)
        } else if same(name, "anime") {
            Some(ResourceType::Anime)
        } else if same(name, "variety") {
            Some(ResourceType::Variety)
        } else if same(name, "documentary") {
            Some(ResourceType::Documentary)
        } else if same(name, "other") {
            Some(ResourceType::Other)
        } else {
            None
        }
    }
}

impl Default for ResourceType {
    fn default() -> (r: Self)
        ensures
            r == ResourceType::Other,
    {
        ResourceType::Other
    }
}

/// No two of them are stored under the same name.
pub proof fn resource_type_names_differ(a: ResourceType, b: ResourceType)
    ensures
        a.name() == b.name() ==> a == b,
{
    reveal_strlit("movie");
    reveal_strlit("tv");
    reveal_strlit("anime");
    reveal_strlit("variety");
    reveal_strlit("documentary");
    reveal_strlit("other");
    if a.name() == b.name() {
        assert(a.name()[0] == b.name()[0]);
        assert(a.name()[1] == b.name()[1]);
    }
}

/// How far an import task has come.
#[derive(Debug, Clone, Copy, PartialEq, Eq, Structural)]
pub enum TaskStatus {
    Pending,
    Parsing,
    WaitingSpace,
    Transferring,
    TransferFailed,
    Organizing,
    Sharing,
    Verifying,
    Completed,
    Failed,
    Skipped,
}

impl TaskStatus {
    /// The name under which it is stored.
    pub open spec fn name(self) -> Seq<char> {
        match self {
            TaskStatus::Pending => "pending"@,
            TaskStatus::Parsing => "parsing"@,
            TaskStatus::WaitingSpace => "waiting_space"@,
            TaskStatus::Transferring => "transferring"@,
            TaskStatus::TransferFailed => "transfer_failed"@,
            TaskStatus::Organizing => "organizing"@,
            TaskStatus::Sharing => "sharing"@,
            TaskStatus::Verifying => "verifying"@,
            TaskStatus::Completed => "completed"@,
            TaskStatus::Failed => "failed"@,
            TaskStatus::Skipped => "skipped"@,
        }
    }

    /// The name under which it is stored.
    pub fn as_str(self) -> (r: &'static str)
        ensures
            r@ == self.name(),
    {
        match self {
            TaskStatus::Pending => "pending",
            TaskStatus::Parsing => "parsing",
            TaskStatus::WaitingSpace => "waiting_space",
            TaskStatus::Transferring => "transferring",
            TaskStatus::TransferFailed => "transfer_failed",
            TaskStatus::Organizing => "organizing",
            TaskStatus::Sharing => "sharing",
            TaskStatus::Verifying => "verifying",
            TaskStatus::Completed => "completed",
            TaskStatus::Failed => "failed",
            TaskStatus::Skipped => "skipped",
        }
    }

    /// The one that a name stands for.
    pub fn from_name(name: &str) -> (r: Option<TaskStatus>)
        ensures
            match r {
                Some(v) => name@ == v.name(),
                None => forall|v: TaskStatus| name@ != #[trigger] v.name(),
            },
    {
        if same(name, "pending") {
            Some(TaskStatus::Pending)
        } else if same(name, "parsing") {
            Some(TaskStatus::Parsing)
        } else if same(name, "waiting_space") {
            Some(TaskStatus::WaitingSpace)
        } else if same(name, "transferring") {
            Some(TaskStatus::Transferring)
        } else if same(name, "transfer_failed") {
            Some(TaskStatus::TransferFailed)
        } else if same(name, "organizing") {
            Some(TaskStatus::Organizing)
        } else if same(name, "sharing") {
            Some(TaskStatus::Sharing)
        } else if same(name, "verifying") {
            Some(TaskStatus::Verifying)
        } else if same(name, "completed") {
            Some(TaskStatus::Completed)
        } else if same(name, "failed") {
            Some(TaskStatus::Failed)
        } else if same(name, "skipped") {
            Some(TaskStatus::Skipped)
        } else {
            None
        }
    }
}

impl Default for TaskStatus {
    fn default() -> (r: Self)
        ensures
            r == TaskStatus::Pending,
    {
        TaskStatus::Pending
    }
}

/// No two of them are stored under the same name.
pub proof fn task_status_names_differ(a: TaskStatus, b: TaskStatus)
    ensures
        a.name() == b.name() ==> a == b,
{
    reveal_strlit("pending");
    reveal_strlit("parsing");
    reveal_strlit("waiting_space");
    reveal_strlit("transferring");
    reveal_strlit("transfer_failed");
    reveal_strlit("organizing");
    reveal_strlit("sharing");
    reveal_strlit("verifying");
    reveal_strlit("completed");
    reveal_strlit("failed");
    reveal_strlit("skipped");
    assert("pending"@.len() == 7 && "pending"@[0] == 'p' && "pending"@[1] == 'e');
    assert("parsing"@.len() == 7 && "parsing"@[0] == 'p' && "parsing"@[1] == 'a');
    assert("waiting_space"@.len() == 13 && "waiting_space"@[0] == 'w' && "waiting_space"@[1] == 'a');
    assert("transferring"@.len() == 12 && "transferring"@[0] == 't' && "transferring"@[1] == 'r');
    assert("transfer_failed"@.len() == 15 && "transfer_failed"@[0] == 't' && "transfer_failed"@[1] == 'r');
    assert("organizing"@.len() == 10 && "organizing"@[0] == 'o' && "organizing"@[1] == 'r');
    assert("sharing"@.len() == 7 && "sharing"@[0] == 's' && "sharing"@[1] == 'h');
    assert("verifying"@.len() == 9 && "verifying"@[0] == 'v' && "verifying"@[1] == 'e');
    assert("completed"@.len() == 9 && "completed"@[0] == 'c' && "completed"@[1] == 'o');
    assert("failed"@.len() == 6 && "failed"@[0] == 'f' && "failed"@[1] == 'a');
    assert("skipped"@.len() == 7 && "skipped"@[0] == 's' && "skipped"@[1] == 'k');
    if a.name() == b.name() {
        assert(a.name()[0] == b.name()[0]);
        assert(a.name()[1] == b.name()[1]);
    }
}

/// Whether a share link can be used.
#[derive(Debug, Clone, Copy, PartialEq, Eq, Structural)]
pub enum ShareStatus {
    Active,
    Inactive,
    Failed,
    Deleted,
}

impl ShareStatus {
    /// The name under which it is stored.
    pub open spec fn name(self) -> Seq<char> {
        match self {
            ShareStatus::Active => "active"@,
            ShareStatus::Inactive => "inactive"@,
            ShareStatus::Failed => "failed"@,
            ShareStatus::Deleted => "deleted"@,
        }
    }

    /// The name under which it is stored.
    pub fn as_str(self) -> (r: &'static str)
        ensures
            r@ == self.name(),
    {
        match self {
            ShareStatus::Active => "active",
            ShareStatus::Inactive => "inactive",
            ShareStatus::Failed => "failed",
            ShareStatus::Deleted => "deleted",
        }
    }

    /// The one that a name stands for.
    pub fn from_name(name: &str) -> (r: Option<ShareStatus>)
        ensures
            match r {
                Some(v) => name@ == v.name(),
                None => forall|v: ShareStatus| name@ != #[trigger] v.name(),
            },
    {
        if same(name, "active") {
            Some(ShareStatus::Active)
        } else if same(name, "inactive") {
            Some(ShareStatus::Inactive)
        } else if same(name, "failed") {
            Some(ShareStatus::Failed)
        } else if same(name, "deleted") {
            Some(ShareStatus::Deleted)
        } else {
            None
        }
    }
}

impl Default for ShareStatus {
    fn default() -> (r: Self)
        ensures
            r == ShareStatus::Active,
    {
        ShareStatus::Active
    }
}

/// No two of them are stored under the same name.
pub proof fn share_status_names_differ(a: ShareStatus, b: ShareStatus)
    ensures
        a.name() == b.name() ==> a == b,
{
    reveal_strlit("active");
    reveal_strlit("inactive");
    reveal_strlit("failed");
    reveal_strlit("deleted");
    if a.name() == b.name() {
        assert(a.name()[0] == b.name()[0]);
        assert(a.name()[1] == b.name()[1]);
    }
}

/// Whether an account can be used.
#[derive(Debug, Clone, Copy, PartialEq, Eq, Structural)]
pub enum AccountStatus {
    Active,
    Inactive,
    Banned,
    CookieExpired,
}

impl AccountStatus {
    /// The name under which it is stored.
    pub open spec fn name(self) -> Seq<char> {
        match self {
            AccountStatus::Active => "active"@,
            AccountStatus::Inactive => "inactive"@,
            AccountStatus::Banned => "banned"@,
            AccountStatus::CookieExpired => "cookieexpired"@,
        }
    }

    /// The name under which it is stored.
    pub fn as_str(self) -> (r: &'static str)
        ensures
            r@ == self.name(),
    {
        match self {
            AccountStatus::Active => "active",
            AccountStatus::Inactive => "inactive",
            AccountStatus::Banned => "banned",
            AccountStatus::CookieExpired => "cookieexpired",
        }
    }

    /// The one that a name stands for.
    pub fn from_name(name: &str) -> (r: Option<AccountStatus>)
        ensures
            match r {
                Some(v) => name@ == v.name(),
                None => forall|v: AccountStatus| name@ != #[trigger] v.name(),
            },
    {
        if same(name, "active") {
            Some(AccountStatus::Active)
        } else if same(name, "inactive") {
            Some(AccountStatus::Inactive)
        } else if same(name, "banned") {
            Some(AccountStatus::Banned)
        } else if same(name, "cookieexpired") {
            Some(AccountStatus::CookieExpired)
        } else {
            None
        }
    }
}

/// No two of them are stored under the same name.
pub proof fn account_status_names_differ(a: AccountStatus, b: AccountStatus)
    ensures
        a.name() == b.name() ==> a == b,
{
    reveal_strlit("active");
    reveal_strlit("inactive");
    reveal_strlit("banned");
    reveal_strlit("cookieexpired");
    if a.name() == b.name() {
        assert(a.name()[0] == b.name()[0]);
        assert(a.name()[1] == b.name()[1]);
    }
}

// ---------------------------------------------------------------------------
// Records. A moment is a number of microseconds since the beginning of 1970, UTC.
// ---------------------------------------------------------------------------

/// The metadata of a resource.
#[derive(Debug)]
pub struct Resource {
    pub id: i64,
    pub title: String,
    pub original_title: Option<String>,
    pub year: Option<i32>,
    pub resource_type: String,
    pub tmdb_id: Option<i64>,
    pub imdb_id: Option<String>,
    pub overview: Option<String>,
    pub poster_url: Option<String>,
    pub backdrop_url: Option<String>,
    pub status: String,
    pub created_at: i64,
    pub updated_at: i64,
}

/// A file of a resource.
#[derive(Debug)]
pub struct ResourceFile {
    pub id: i64,
    pub resource_id: i64,
    pub file_name: String,
    pub file_path: Option<String>,
    pub file_size: Option<i64>,
    pub file_ext: Option<String>,
    pub media_type: Option<String>,
    pub season: Option<i32>,
    pub episode: Option<i32>,
    pub quality: Option<String>,
    pub source: Option<String>,
    pub codec: Option<String>,
    pub audio: Option<String>,
    pub subtitle_info: Option<String>,
    pub cloud_file_id: Option<String>,
    pub pick_code: Option<String>,
    pub strm_path: Option<String>,
    pub created_at: i64,
}

/// A share link.
#[derive(Debug)]
pub struct Share {
    pub id: i64,
    pub resource_id: Option<i64>,
    pub share_url: String,
    pub pick_code: Option<String>,
    pub share_code: Option<String>,
    pub share_title: Option<String>,
    pub share_type: Option<String>,
    pub file_count: Option<i32>,
    pub total_size: Option<i64>,
    pub status: String,
    pub last_checked_at: Option<i64>,
    pub created_at: i64,
}

/// An import task.
#[derive(Debug)]
pub struct ImportTask {
    pub id: i64,
    pub source_share_url: String,
    pub source_pick_code: Option<String>,
    pub status: String,
    pub total_size: Option<i64>,
    pub total_files: Option<i32>,
    pub current_step: Option<String>,
    pub error_message: Option<String>,
    pub priority: i32,
    pub category: Option<String>,
    pub remark: Option<String>,
    pub created_at: i64,
    pub updated_at: i64,
}

/// A part of an import task.
#[derive(Debug)]
pub struct ImportBatch {
    pub id: i64,
    pub task_id: i64,
    pub batch_index: i32,
    pub status: String,
    pub file_count: Option<i32>,
    pub total_size: Option<i64>,
    pub temp_folder_id: Option<String>,
    pub target_folder_id: Option<String>,
    pub share_id: Option<i64>,
    pub error_message: Option<String>,
    pub created_at: i64,
    pub updated_at: i64,
}

/// An account of the cloud drive. The cookie is stored encrypted.
#[derive(Debug)]
pub struct Account {
    pub id: i64,
    pub name: String,
    pub cookie_encrypted: String,
    pub root_folder_id: Option<String>,
    pub temp_folder_id: Option<String>,
    pub total_size: Option<i64>,
    pub used_size: Option<i64>,
    pub free_size: Option<i64>,
    pub status: String,
    pub last_checked_at: Option<i64>,
    pub last_failed_at: Option<i64>,
    pub failure_count: i32,
    pub created_at: i64,
    pub updated_at: i64,
}

/// A record of who changed what.
#[derive(Debug)]
pub struct AuditLog {
    pub id: i64,
    pub user_id: Option<i64>,
    pub action: String,
    pub resource_type: Option<String>,
    pub resource_id: Option<i64>,
    pub old_value: Option<String>,
    pub new_value: Option<String>,
    pub ip_address: Option<String>,
    pub timestamp: i64,
}

} // verus!
