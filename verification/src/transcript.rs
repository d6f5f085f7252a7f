//! What an access check asks of the instance, and the answers collected so far.
//!
//! An access check is a pure decision over a [`Transcript`]. Where an answer is missing it
//! stops with the question; the caller asks the instance, records the answer and checks
//! again.
use std::collections::HashMap;
use vstd::prelude::*;
use vstd::string::*;

use crate::schema::{PrivilegeDef, SpaceId, UserId};

verus! {

/// Whether an entry of the `_user` space is a user or a role.
#[derive(Clone, Copy, Debug, PartialEq, Eq, Structural)]
pub enum UserMetadataKind {
    User,
    Role,
}

/// User metadata. Represents a tuple of a system `_user` space.
#[derive(Clone, Debug, PartialEq, Eq)]
pub struct UserMetadata {
    pub id: UserId,
    pub owner_id: UserId,
    pub name: String,
    pub ty: UserMetadataKind,
    pub auth: HashMap<String, String>,
    pub auth_history: [(); 0],
    pub last_modified: usize,
}

/// What an entry of the `_user` space holds. The history of authentication is always empty.
pub ghost struct UserView {
    pub id: UserId,
    pub owner_id: UserId,
    pub name: Seq<char>,
    pub ty: UserMetadataKind,
    pub auth: Map<String, String>,
    pub last_modified: usize,
}

impl View for UserMetadata {
    type V = UserView;

    open spec fn view(&self) -> UserView {
        UserView {
            id: self.id,
            owner_id: self.owner_id,
            name: self.name@,
            ty: self.ty,
            auth: self.auth@,
            last_modified: self.last_modified,
        }
    }
}

/// Table metadata, as far as access checks read it.
#[derive(Clone, Debug, PartialEq, Eq)]
pub struct TableMetadata {
    pub id: SpaceId,
    /// The owner.
    pub user_id: UserId,
    pub name: String,
}

/// What access checks read of a table.
pub ghost struct TableView {
    pub id: SpaceId,
    pub user_id: UserId,
    pub name: Seq<char>,
}

impl View for TableMetadata {
    type V = TableView;

    open spec fn view(&self) -> TableView {
        TableView { id: self.id, user_id: self.user_id, name: self.name@ }
    }
}

/// The codes of the errors that access checks raise.
#[derive(Clone, Copy, Debug, PartialEq, Eq, Structural)]
pub enum TarantoolErrorCode {
    AccessDenied,
    NoSuchUser,
    RoleLoop,
}

impl TarantoolErrorCode {
    pub open spec fn name(self) -> Seq<char> {
        match self {
            TarantoolErrorCode::AccessDenied => "AccessDenied"@,
            TarantoolErrorCode::NoSuchUser => "NoSuchUser"@,
            TarantoolErrorCode::RoleLoop => "RoleLoop"@,
        }
    }

    pub fn as_str(&self) -> (r: &'static str)
        ensures
            r@ == self.name(),
    {
        match self {
            TarantoolErrorCode::AccessDenied => "AccessDenied",
            TarantoolErrorCode::NoSuchUser => "NoSuchUser",
            TarantoolErrorCode::RoleLoop => "RoleLoop",
        }
    }
}

/// Why a check fails: an error of its own, or one that the instance answered with, by its
/// text.
#[derive(Debug, PartialEq, Eq)]
pub enum TarantoolError {
    Raised { code: TarantoolErrorCode, message: String },
    Foreign(String),
}

/// What a [`TarantoolError`] says.
pub ghost enum ErrorView {
    Raised { code: TarantoolErrorCode, message: Seq<char> },
    Foreign(Seq<char>),
}

impl View for TarantoolError {
    type V = ErrorView;

    open spec fn view(&self) -> ErrorView {
        match self {
            TarantoolError::Raised { code, message } => ErrorView::Raised {
                code: *code,
                message: message@,
            },
            TarantoolError::Foreign(text) => ErrorView::Foreign(text@),
        }
    }
}

impl ErrorView {
    /// The text of the error.
    pub open spec fn text(self) -> Seq<char> {
        match self {
            ErrorView::Raised { code, message } => "tarantool error: "@ + code.name() + ": "@
                + message,
            ErrorView::Foreign(text) => text,
        }
    }
}

impl Clone for TarantoolError {
    fn clone(&self) -> (r: Self)
        ensures
            r == *self,
    {
        match self {
            TarantoolError::Raised { code, message } => TarantoolError::Raised {
                code: *code,
                message: message.clone(),
            },
            TarantoolError::Foreign(text) => TarantoolError::Foreign(text.clone()),
        }
    }
}

impl TarantoolError {
    /// Writes the error out.
    pub fn to_string(&self) -> (r: String)
        ensures
            r@ == self@.text(),
    {
        match self {
            TarantoolError::Raised { code, message } => {
                let mut out = "tarantool error: ".to_owned();
                out.append(code.as_str());
                out.append(": ");
                out.append(message.as_str());
                out
            },
            TarantoolError::Foreign(text) => text.clone(),
        }
    }
}

/// The kinds of access that tarantool is asked about.
#[derive(Clone, Copy, Debug, PartialEq, Eq, Structural)]
pub enum PrivType {
    Write,
    Create,
    Drop,
    Alter,
    Grant,
    Revoke,
}

/// The kinds of objects that tarantool is asked about.
#[derive(Clone, Copy, Debug, PartialEq, Eq, Structural)]
pub enum TntSchemaObjectType {
    Space,
    User,
    Role,
}

/// An access that tarantool decides on, for `as_user`.
#[derive(Debug, PartialEq, Eq)]
pub enum AccessCheck {
    /// `box_access_check_ddl`
    Ddl {
        object_name: String,
        object_id: u32,
        owner_id: UserId,
        object_type: TntSchemaObjectType,
        access: PrivType,
        as_user: UserId,
    },
    /// `box_access_check_space`
    Space { space_id: SpaceId, access: PrivType, as_user: UserId },
}

/// What an [`AccessCheck`] says.
pub ghost enum CheckView {
    Ddl {
        object_name: Seq<char>,
        object_id: u32,
        owner_id: UserId,
        object_type: TntSchemaObjectType,
        access: PrivType,
        as_user: UserId,
    },
    Space { space_id: SpaceId, access: PrivType, as_user: UserId },
}

impl View for AccessCheck {
    type V = CheckView;

    open spec fn view(&self) -> CheckView {
        match self {
            AccessCheck::Ddl {
                object_name,
                object_id,
                owner_id,
                object_type,
                access,
                as_user,
            } => CheckView::Ddl {
                object_name: object_name@,
                object_id: *object_id,
                owner_id: *owner_id,
                object_type: *object_type,
                access: *access,
                as_user: *as_user,
            },
            AccessCheck::Space { space_id, access, as_user } => CheckView::Space {
                space_id: *space_id,
                access: *access,
                as_user: *as_user,
            },
        }
    }
}

impl AccessCheck {
    /// Whether both ask for the same access.
    pub fn same(&self, other: &AccessCheck) -> (r: bool)
        ensures
            r == (self@ == other@),
    {
        match (self, other) {
            (
                AccessCheck::Ddl {
                    object_name,
                    object_id,
                    owner_id,
                    object_type,
                    access,
                    as_user,
                },
                AccessCheck::Ddl {
                    object_name: other_name,
                    object_id: other_id,
                    owner_id: other_owner,
                    object_type: other_type,
                    access: other_access,
                    as_user: other_user,
                },
            ) => {
                *object_name == *other_name && *object_id == *other_id && *owner_id == *other_owner
                    && *object_type == *other_type && *access == *other_access && *as_user
                    == *other_user
            },
            (
                AccessCheck::Space { space_id, access, as_user },
                AccessCheck::Space {
                    space_id: other_id,
                    access: other_access,
                    as_user: other_user,
                },
            ) => *space_id == *other_id && *access == *other_access && *as_user == *other_user,
            _ => false,
        }
    }
}

/// A question to the instance.
#[derive(Debug, PartialEq, Eq)]
pub enum Request {
    /// The entry of the `_user` space with this identifier.
    User(UserId),
    /// The metadata of the table with this identifier.
    Table(SpaceId),
    /// All privileges of the cluster.
    Privileges,
    /// Whether tarantool lets a user do something.
    Access(AccessCheck),
}

/// What a [`Request`] asks.
pub ghost enum RequestView {
    User(UserId),
    Table(SpaceId),
    Privileges,
    Access(CheckView),
}

impl View for Request {
    type V = RequestView;

    open spec fn view(&self) -> RequestView {
        match self {
            Request::User(id) => RequestView::User(*id),
            Request::Table(id) => RequestView::Table(*id),
            Request::Privileges => RequestView::Privileges,
            Request::Access(check) => RequestView::Access(check@),
        }
    }
}

/// Why a check did not let the operation pass: an answer is missing, or it is refused.
#[derive(Debug, PartialEq, Eq)]
pub enum Pending {
    Ask(Request),
    Fail(TarantoolError),
}

/// What a check comes to.
pub ghost enum Verdict {
    /// The operation may go ahead.
    Granted,
    /// The check needs this answer first.
    Asks(RequestView),
    /// The operation is refused.
    Refused(ErrorView),
}

impl View for Pending {
    type V = Verdict;

    open spec fn view(&self) -> Verdict {
        match self {
            Pending::Ask(request) => Verdict::Asks(request@),
            Pending::Fail(error) => Verdict::Refused(error@),
        }
    }
}

/// The verdict that the result of a check stands for.
pub open spec fn verdict_of(r: Result<(), Pending>) -> Verdict {
    match r {
        Ok(_) => Verdict::Granted,
        Err(pending) => pending@,
    }
}

/// An answer with its text and its metadata opened.
pub open spec fn user_answer(answer: Result<Option<UserMetadata>, TarantoolError>) -> Result<
    Option<UserView>,
    ErrorView,
> {
    match answer {
        Ok(Some(user)) => Ok(Some(user@)),
        Ok(None) => Ok(None),
        Err(error) => Err(error@),
    }
}

pub open spec fn table_answer(answer: Result<TableMetadata, TarantoolError>) -> Result<
    TableView,
    ErrorView,
> {
    match answer {
        Ok(table) => Ok(table@),
        Err(error) => Err(error@),
    }
}

pub open spec fn privileges_answer(
    answer: Result<Vec<PrivilegeDef>, TarantoolError>,
) -> Result<Seq<PrivilegeDef>, ErrorView> {
    match answer {
        Ok(privileges) => Ok(privileges@),
        Err(error) => Err(error@),
    }
}

pub open spec fn access_answer(answer: Result<(), TarantoolError>) -> Result<(), ErrorView> {
    match answer {
        Ok(_) => Ok(()),
        Err(error) => Err(error@),
    }
}

/// What is known of the instance.
#[verifier::ext_equal]
pub ghost struct Facts {
    pub users: Map<UserId, Result<Option<UserView>, ErrorView>>,
    pub tables: Map<SpaceId, Result<TableView, ErrorView>>,
    pub privileges: Option<Result<Seq<PrivilegeDef>, ErrorView>>,
    pub access: Option<(CheckView, Result<(), ErrorView>)>,
}

impl Facts {
    /// Metadata carries the identifier under which it was looked up.
    pub open spec fn consistent(self) -> bool {
        &&& forall|id: UserId| #[trigger]
            self.users.contains_key(id) ==> (self.users[id] matches Ok(Some(user)) ==> user.id
                == id)
        &&& forall|id: SpaceId| #[trigger]
            self.tables.contains_key(id) ==> (self.tables[id] matches Ok(table) ==> table.id == id)
    }

    /// The question has an answer.
    pub open spec fn answers(self, request: RequestView) -> bool {
        match request {
            RequestView::User(id) => self.users.contains_key(id),
            RequestView::Table(id) => self.tables.contains_key(id),
            RequestView::Privileges => self.privileges is Some,
            RequestView::Access(check) => self.access matches Some(answer) && answer.0 == check,
        }
    }

    /// `more` has every answer of `self`, unchanged.
    pub open spec fn grows_to(self, more: Facts) -> bool {
        &&& self.users.submap_of(more.users)
        &&& self.tables.submap_of(more.tables)
        &&& self.privileges is Some ==> more.privileges == self.privileges
        &&& self.access is Some ==> more.access == self.access
    }
}

/// The answers collected for one operation of one user.
pub struct Transcript {
    users: HashMap<UserId, Result<Option<UserMetadata>, TarantoolError>>,
    tables: HashMap<SpaceId, Result<TableMetadata, TarantoolError>>,
    privileges: Option<Result<Vec<PrivilegeDef>, TarantoolError>>,
    access: Option<(AccessCheck, Result<(), TarantoolError>)>,
}

impl View for Transcript {
    type V = Facts;

    closed spec fn view(&self) -> Facts {
        Facts {
            users: Map::new(
                |id: UserId| self.users@.contains_key(id),
                |id: UserId| user_answer(self.users@[id]),
            ),
            tables: Map::new(
                |id: SpaceId| self.tables@.contains_key(id),
                |id: SpaceId| table_answer(self.tables@[id]),
            ),
            privileges: match self.privileges {
                Some(answer) => Some(privileges_answer(answer)),
                None => None,
            },
            access: match self.access {
                Some(answer) => Some((answer.0@, access_answer(answer.1))),
                None => None,
            },
        }
    }
}

impl Transcript {
    /// Nothing is known yet.
    pub fn new() -> (r: Transcript)
        ensures
            r@.users == Map::<UserId, Result<Option<UserView>, ErrorView>>::empty(),
            r@.tables == Map::<SpaceId, Result<TableView, ErrorView>>::empty(),
            r@.privileges is None,
            r@.access is None,
            r@.consistent(),
    {
        broadcast use vstd::std_specs::hash::group_hash_axioms;

        Transcript {
            users: HashMap::new(),
            tables: HashMap::new(),
            privileges: None,
            access: None,
        }
    }

    /// Records the entry of the `_user` space under `id`, or that there is none, or that it
    /// could not be read.
    pub fn record_user(&mut self, id: UserId, answer: Result<Option<UserMetadata>, TarantoolError>)
        requires
            answer matches Ok(Some(user)) ==> user.id == id,
        ensures
            final(self)@ == (Facts {
                users: old(self)@.users.insert(id, user_answer(answer)),
                ..old(self)@
            }),
            old(self)@.consistent() ==> final(self)@.consistent(),
    {
        broadcast use vstd::std_specs::hash::group_hash_axioms;

        self.users.insert(id, answer);
        assert(self@.users =~= old(self)@.users.insert(id, user_answer(answer)));
    }

    /// Records the metadata of the table `id`, or why it could not be read.
    pub fn record_table(&mut self, id: SpaceId, answer: Result<TableMetadata, TarantoolError>)
        requires
            answer matches Ok(table) ==> table.id == id,
        ensures
            final(self)@ == (Facts {
                tables: old(self)@.tables.insert(id, table_answer(answer)),
                ..old(self)@
            }),
            old(self)@.consistent() ==> final(self)@.consistent(),
    {
        broadcast use vstd::std_specs::hash::group_hash_axioms;

        self.tables.insert(id, answer);
        assert(self@.tables =~= old(self)@.tables.insert(id, table_answer(answer)));
    }

    /// Records the privileges of the cluster, or why they could not be read.
    pub fn record_privileges(&mut self, answer: Result<Vec<PrivilegeDef>, TarantoolError>)
        ensures
            final(self)@ == (Facts {
                privileges: Some(privileges_answer(answer)),
                ..old(self)@
            }),
            old(self)@.consistent() ==> final(self)@.consistent(),
    {
        self.privileges = Some(answer);
    }

    /// Records what tarantool answered to an access check, or why the check could not be made
    /// on behalf of the user. It takes the place of an earlier answer.
    pub fn record_access(&mut self, check: AccessCheck, answer: Result<(), TarantoolError>)
        ensures
            final(self)@ == (Facts {
                access: Some((check@, access_answer(answer))),
                ..old(self)@
            }),
            old(self)@.consistent() ==> final(self)@.consistent(),
    {
        self.access = Some((check, answer));
    }

    pub(crate) fn user(&self, id: UserId) -> (r: Option<&Result<Option<UserMetadata>, TarantoolError>>)
        ensures
            r is Some <==> self@.users.contains_key(id),
            r matches Some(answer) ==> self@.users[id] == user_answer(*answer),
    {
        broadcast use vstd::std_specs::hash::group_hash_axioms;

        self.users.get(&id)
    }

    pub(crate) fn table(&self, id: SpaceId) -> (r: Option<&Result<TableMetadata, TarantoolError>>)
        ensures
            r is Some <==> self@.tables.contains_key(id),
            r matches Some(answer) ==> self@.tables[id] == table_answer(*answer),
    {
        broadcast use vstd::std_specs::hash::group_hash_axioms;

        self.tables.get(&id)
    }

    pub(crate) fn privileges(&self) -> (r: Option<&Result<Vec<PrivilegeDef>, TarantoolError>>)
        ensures
            r is Some <==> self@.privileges is Some,
            r matches Some(answer) ==> self@.privileges == Some(privileges_answer(*answer)),
    {
        match &self.privileges {
            Some(answer) => Some(answer),
            None => None,
        }
    }

    pub(crate) fn access(&self) -> (r: Option<&(AccessCheck, Result<(), TarantoolError>)>)
        ensures
            r is Some <==> self@.access is Some,
            r matches Some(answer) ==> self@.access == Some(
                (answer.0@, access_answer(answer.1)),
            ),
    {
        match &self.access {
            Some(answer) => Some(answer),
            None => None,
        }
    }
}

/// What is known of a user, a table or an error is all that was answered of it.
pub proof fn law_answers_are_known_in_full(
    user: UserMetadata,
    table: TableMetadata,
    privileges: Vec<PrivilegeDef>,
    error: TarantoolError,
)
    ensures
        user_answer(Ok(Some(user))) matches Ok(Some(known)) && {
            &&& known.id == user.id
            &&& known.owner_id == user.owner_id
            &&& known.name == user.name@
            &&& known.ty == user.ty
            &&& known.auth == user.auth@
            &&& known.last_modified == user.last_modified
        },
        user_answer(Ok(None)) matches Ok(None),
        user_answer(Err(error)) matches Err(known) && known == error@,
        table_answer(Ok(table)) matches Ok(known) && {
            &&& known.id == table.id
            &&& known.user_id == table.user_id
            &&& known.name == table.name@
        },
        table_answer(Err(error)) matches Err(known) && known == error@,
        privileges_answer(Ok(privileges)) matches Ok(known) && known == privileges@,
        privileges_answer(Err(error)) matches Err(known) && known == error@,
        access_answer(Ok(())) is Ok,
        access_answer(Err(error)) matches Err(known) && known == error@,
{
}

/// Two checks are the same exactly if they ask tarantool about the same access of the same user
/// to the same object under the same name and owner.
pub proof fn law_same_checks_ask_the_same(a: AccessCheck, b: AccessCheck, r: bool)
    requires
        call_ensures(AccessCheck::same, (&a, &b), r),
    ensures
        r <==> match (a, b) {
            (
                AccessCheck::Ddl { object_name, object_id, owner_id, object_type, access, as_user },
                AccessCheck::Ddl {
                    object_name: other_name,
                    object_id: other_id,
                    owner_id: other_owner,
                    object_type: other_type,
                    access: other_access,
                    as_user: other_user,
                },
            ) => object_name@ == other_name@ && object_id == other_id && owner_id == other_owner
                && object_type == other_type && access == other_access && as_user == other_user,
            (
                AccessCheck::Space { space_id, access, as_user },
                AccessCheck::Space {
                    space_id: other_id,
                    access: other_access,
                    as_user: other_user,
                },
            ) => space_id == other_id && access == other_access && as_user == other_user,
            _ => false,
        },
{
}

/// A refusal of a check is shown with its code and its message; an error of the instance keeps
/// its text.
pub proof fn law_refusal_is_shown_with_its_code(error: TarantoolError, r: String)
    requires
        call_ensures(TarantoolError::to_string, (&error,), r),
    ensures
        match error {
            TarantoolError::Raised { code, message } => r@ == "tarantool error: "@ + (match code {
                TarantoolErrorCode::AccessDenied => "AccessDenied"@,
                TarantoolErrorCode::NoSuchUser => "NoSuchUser"@,
                TarantoolErrorCode::RoleLoop => "RoleLoop"@,
            }) + ": "@ + message@,
            TarantoolError::Foreign(text) => r@ == text@,
        },
{
}

} // verus!
