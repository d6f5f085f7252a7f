//! The cluster schema: users, roles, tables, routines and privileges, as far as operations
//! and access checks speak of them.
use vstd::prelude::*;

verus! {

/// The identifier of a user or a role.
pub type UserId = u32;

/// The identifier of a table.
pub type SpaceId = u32;

/// The identifier of an index of a table.
pub type IndexId = u32;

/// The identifier of a routine.
pub type RoutineId = u32;

/// The user of connections that did not log in.
pub const GUEST_ID: UserId = 0;

/// The administrator.
pub const ADMIN_ID: UserId = 1;

/// The role that everyone has.
pub const PUBLIC_ID: UserId = 2;

/// The role that has every privilege.
pub const SUPER_ID: UserId = 31;

/// The kinds of objects on which privileges are granted.
#[derive(Clone, Copy, Debug, PartialEq, Eq, Structural)]
pub enum SchemaObjectType {
    Table,
    Role,
    User,
    Universe,
}

impl SchemaObjectType {
    pub open spec fn name(self) -> Seq<char> {
        match self {
            SchemaObjectType::Table => "table"@,
            SchemaObjectType::Role => "role"@,
            SchemaObjectType::User => "user"@,
            SchemaObjectType::Universe => "universe"@,
        }
    }

    pub fn as_str(&self) -> (r: &'static str)
        ensures
            r@ == self.name(),
    {
        match self {
            SchemaObjectType::Table => "table",
            SchemaObjectType::Role => "role",
            SchemaObjectType::User => "user",
            SchemaObjectType::Universe => "universe",
        }
    }
}

/// What a privilege allows.
#[derive(Clone, Copy, Debug, PartialEq, Eq, Structural)]
pub enum PrivilegeType {
    Read,
    Write,
    Execute,
    Login,
    Create,
    Drop,
    Alter,
}

impl PrivilegeType {
    pub open spec fn name(self) -> Seq<char> {
        match self {
            PrivilegeType::Read => "read"@,
            PrivilegeType::Write => "write"@,
            PrivilegeType::Execute => "execute"@,
            PrivilegeType::Login => "login"@,
            PrivilegeType::Create => "create"@,
            PrivilegeType::Drop => "drop"@,
            PrivilegeType::Alter => "alter"@,
        }
    }

    pub fn as_str(&self) -> (r: &'static str)
        ensures
            r@ == self.name(),
    {
        match self {
            PrivilegeType::Read => "read",
            PrivilegeType::Write => "write",
            PrivilegeType::Execute => "execute",
            PrivilegeType::Login => "login",
            PrivilegeType::Create => "create",
            PrivilegeType::Drop => "drop",
            PrivilegeType::Alter => "alter",
        }
    }
}

/// One granted privilege. Without an `object_id` it is granted on every object of the type.
#[derive(Clone, Copy, Debug, PartialEq, Eq, Structural)]
pub struct PrivilegeDef {
    pub privilege: PrivilegeType,
    pub object_type: SchemaObjectType,
    pub object_id: Option<u32>,
    pub grantee_id: UserId,
    pub grantor_id: UserId,
    pub schema_version: u64,
}

/// How a user proves who they are.
#[derive(Clone, Debug, PartialEq, Eq)]
pub struct AuthDef {
    pub method: String,
    pub data: String,
}

/// A user or a role. A role has no way to log in.
#[derive(Clone, Debug, PartialEq, Eq)]
pub struct UserDef {
    pub id: UserId,
    pub name: String,
    pub schema_version: u64,
    pub auth: Option<AuthDef>,
    pub owner: UserId,
}

/// How the rows of a table are spread over the cluster.
#[derive(Clone, Debug, PartialEq, Eq)]
pub enum Distribution {
    /// Every instance holds every row.
    Global,
    /// The bucket is computed from a sharding key.
    ShardedImplicitly { sharding_key: Vec<String> },
    /// The bucket stands in a field of the row.
    ShardedByField { field: String },
}

/// The storage engine of a table.
#[derive(Clone, Copy, Debug, PartialEq, Eq, Structural)]
pub enum SpaceEngineType {
    Memtx,
    Vinyl,
    SysView,
    Service,
    Blackhole,
}

/// A column of a table.
#[derive(Clone, Debug, PartialEq, Eq)]
pub struct Field {
    pub name: String,
    pub field_type: String,
    pub is_nullable: bool,
}

/// A part of an index key.
#[derive(Clone, Debug, PartialEq, Eq)]
pub struct Part {
    pub field: NumOrStr,
    pub field_type: Option<String>,
    pub collation: Option<String>,
    pub is_nullable: Option<bool>,
    pub path: Option<String>,
}

/// A column, by its position or by its name.
#[derive(Clone, Debug, PartialEq, Eq)]
pub enum NumOrStr {
    Num(u32),
    Str(String),
}

/// A parameter of a routine.
#[derive(Clone, Debug, PartialEq, Eq)]
pub struct RoutineParam {
    pub mode: String,
    pub param_type: String,
}

/// Types of objects and privileges are called by their names.
pub proof fn law_types_are_called_by_their_names(
    object_type: SchemaObjectType,
    privilege: PrivilegeType,
    object_name: &'static str,
    privilege_name: &'static str,
)
    requires
        call_ensures(SchemaObjectType::as_str, (&object_type,), object_name),
        call_ensures(PrivilegeType::as_str, (&privilege,), privilege_name),
    ensures
        object_type is Table ==> object_name@ == "table"@,
        object_type is Role ==> object_name@ == "role"@,
        object_type is User ==> object_name@ == "user"@,
        object_type is Universe ==> object_name@ == "universe"@,
        privilege is Read ==> privilege_name@ == "read"@,
        privilege is Write ==> privilege_name@ == "write"@,
        privilege is Execute ==> privilege_name@ == "execute"@,
        privilege is Login ==> privilege_name@ == "login"@,
        privilege is Create ==> privilege_name@ == "create"@,
        privilege is Drop ==> privilege_name@ == "drop"@,
        privilege is Alter ==> privilege_name@ == "alter"@,
{
}

} // verus!
