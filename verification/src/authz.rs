//! Role-based authorization of database operations: permissions, roles,
//! the caller's context, protected resources, the access decision, and the
//! gate each record operation passes before it reaches the database.
use vstd::prelude::*;
use crate::db_error::AppError;
use crate::text::{owned, chars_of, str_eq};

verus! {

/// Permissions on database records.
#[derive(Debug, Clone, Copy, PartialEq, Eq, Structural, Hash)]
pub enum Permission {
    Read,
    Create,
    Update,
    Delete,
    Admin,
}

/// The lowercase name of a permission.
pub open spec fn permission_name(p: Permission) -> Seq<char> {
    match p {
        Permission::Read => "read"@,
        Permission::Create => "create"@,
        Permission::Update => "update"@,
        Permission::Delete => "delete"@,
        Permission::Admin => "admin"@,
    }
}

impl Permission {
    /// The lowercase name of the permission.
    pub fn to_display_string(&self) -> (s: String)
        ensures
            s@ == permission_name(*self),
    {
        match self {
            Permission::Read => owned("read"),
            Permission::Create => owned("create"),
            Permission::Update => owned("update"),
            Permission::Delete => owned("delete"),
            Permission::Admin => owned("admin"),
        }
    }
}

/// A named set of permissions; each permission is held once.
#[derive(Debug)]
pub struct Role {
    name: String,
    permissions: Vec<Permission>,
}

/// A role grants `p` when it holds `p` or `Admin`.
pub open spec fn role_grants(perms: Set<Permission>, p: Permission) -> bool {
    perms.contains(p) || perms.contains(Permission::Admin)
}

fn contains_permission(v: &Vec<Permission>, p: Permission) -> (b: bool)
    ensures
        b == v@.contains(p),
{
    let mut i: usize = 0;
    while i < v.len()
        invariant
            i <= v@.len(),
            forall|k: int| 0 <= k < i ==> v@[k] != p,
        decreases v.len() - i,
    {
        if v[i] == p {
            return true;
        }
        i = i + 1;
    }
    false
}

proof fn lemma_push_contains(s: Seq<Permission>, x: Permission, a: Permission)
    ensures
        s.push(x).contains(a) <==> s.contains(a) || a == x,
{
    if s.contains(a) {
        let k = choose|k: int| 0 <= k < s.len() && s[k] == a;
        assert(s.push(x)[k] == a);
    }
    if a == x {
        assert(s.push(x)[s.len() as int] == x);
    }
    if s.push(x).contains(a) {
        let k = choose|k: int| 0 <= k < s.push(x).len() && s.push(x)[k] == a;
        if k < s.len() {
            assert(s[k] == a);
        }
    }
}

impl Role {
    #[verifier::type_invariant]
    spec fn inv(&self) -> bool {
        self.permissions@.no_duplicates()
    }

    /// The role's name.
    pub closed spec fn name_view(&self) -> Seq<char> {
        self.name@
    }

    /// The permissions the role holds.
    pub closed spec fn permission_set(&self) -> Set<Permission> {
        self.permissions@.to_set()
    }

    /// A role without permissions.
    pub fn new(name: &str) -> (r: Self)
        ensures
            r.name_view() == name@,
            r.permission_set() == Set::<Permission>::empty(),
    {
        let r = Role { name: owned(name), permissions: Vec::new() };
        assert(r.permission_set() =~= Set::<Permission>::empty());
        r
    }

    /// The role's name.
    pub fn name(&self) -> (n: &str)
        ensures
            n@ == self.name_view(),
    {
        self.name.as_str()
    }

    /// The permissions the role holds, each once.
    pub fn permissions(&self) -> (v: &Vec<Permission>)
        ensures
            v@.to_set() == self.permission_set(),
            v@.no_duplicates(),
    {
        proof {
            use_type_invariant(self);
        }
        &self.permissions
    }

    /// The role with `permission` added.
    pub fn with_permission(self, permission: Permission) -> (r: Self)
        ensures
            r.name_view() == self.name_view(),
            r.permission_set() == self.permission_set().insert(permission),
    {
        proof {
            use_type_invariant(&self);
        }
        let Role { name, permissions } = self;
        let ghost old_perms = permissions@;
        let mut permissions = permissions;
        if !contains_permission(&permissions, permission) {
            permissions.push(permission);
            assert forall|a: Permission| permissions@.to_set().contains(a) <==> old_perms.to_set().insert(permission).contains(a) by {
                lemma_push_contains(old_perms, permission, a);
            }
            assert(permissions@.no_duplicates()) by {
                assert forall|i: int, j: int| 0 <= i < permissions@.len() && 0 <= j < permissions@.len() && i != j
                    implies permissions@[i] != permissions@[j] by {
                    if i == old_perms.len() as int {
                        assert(old_perms[j] == permissions@[j]);
                    } else if j == old_perms.len() as int {
                        assert(old_perms[i] == permissions@[i]);
                    }
                }
            }
        }
        let r = Role { name, permissions };
        assert(r.permission_set() =~= self.permission_set().insert(permission));
        r
    }

    /// The role with all of `permissions` added.
    pub fn with_permissions(self, permissions: Vec<Permission>) -> (r: Self)
        ensures
            r.name_view() == self.name_view(),
            r.permission_set() == self.permission_set().union(permissions@.to_set()),
    {
        let mut r = self;
        let mut i: usize = 0;
        while i < permissions.len()
            invariant
                i <= permissions@.len(),
                r.name_view() == self.name_view(),
                r.permission_set() == self.permission_set().union(permissions@.take(i as int).to_set()),
            decreases permissions.len() - i,
        {
            let ghost before = r.permission_set();
            r = r.with_permission(permissions[i]);
            assert(permissions@.take(i + 1) =~= permissions@.take(i as int).push(permissions@[i as int]));
            assert forall|a: Permission| permissions@.take(i + 1).to_set().contains(a)
                <==> permissions@.take(i as int).to_set().insert(permissions@[i as int]).contains(a) by {
                lemma_push_contains(permissions@.take(i as int), permissions@[i as int], a);
            }
            assert forall|a: Permission| r.permission_set().contains(a)
                <==> self.permission_set().union(permissions@.take(i + 1).to_set()).contains(a) by {
                lemma_push_contains(permissions@.take(i as int), permissions@[i as int], a);
            }
            assert(r.permission_set() =~= self.permission_set().union(permissions@.take(i + 1).to_set()));
            i = i + 1;
        }
        assert(permissions@.take(permissions@.len() as int) =~= permissions@);
        r
    }

    /// Whether the role grants `permission` (`Admin` grants everything).
    pub fn has_permission(&self, permission: Permission) -> (b: bool)
        ensures
            b == role_grants(self.permission_set(), permission),
    {
        proof {
            use_type_invariant(self);
        }
        contains_permission(&self.permissions, permission) || contains_permission(&self.permissions, Permission::Admin)
    }
}

impl Clone for Role {
    /// The same name and permissions.
    fn clone(&self) -> (r: Self)
        ensures
            r.name_view() == self.name_view(),
            r.permission_set() == self.permission_set(),
    {
        proof {
            use_type_invariant(self);
        }
        let mut permissions: Vec<Permission> = Vec::new();
        let mut i: usize = 0;
        while i < self.permissions.len()
            invariant
                i <= self.permissions@.len(),
                permissions@ == self.permissions@.take(i as int),
            decreases self.permissions.len() - i,
        {
            permissions.push(self.permissions[i]);
            assert(self.permissions@.take(i + 1) =~= self.permissions@.take(i as int).push(self.permissions@[i as int]));
            i = i + 1;
        }
        assert(self.permissions@.take(self.permissions@.len() as int) =~= self.permissions@);
        Role { name: owned(self.name.as_str()), permissions }
    }
}

/// The caller of an operation and their roles.
#[derive(Debug, Clone)]
pub struct AuthContext {
    pub user_id: String,
    pub roles: Vec<Role>,
}

/// Some role among `roles` grants `p`.
pub open spec fn context_grants(roles: Seq<Role>, p: Permission) -> bool {
    exists|i: int| 0 <= i < roles.len() && #[trigger] role_grants(roles[i].permission_set(), p)
}

impl AuthContext {
    /// A caller without roles.
    pub fn new(user_id: &str) -> (c: Self)
        ensures
            c.user_id@ == user_id@,
            c.roles@.len() == 0,
    {
        AuthContext { user_id: owned(user_id), roles: Vec::new() }
    }

    /// The caller with `role` added.
    pub fn with_role(self, role: Role) -> (c: Self)
        ensures
            c.user_id == self.user_id,
            c.roles@ == self.roles@.push(role),
    {
        let mut c = self;
        c.roles.push(role);
        c
    }

    /// The caller with all of `roles` added.
    pub fn with_roles(self, roles: Vec<Role>) -> (c: Self)
        ensures
            c.user_id == self.user_id,
            c.roles@ == self.roles@ + roles@,
    {
        let mut c = self;
        let mut more = roles;
        c.roles.append(&mut more);
        c
    }

    /// Whether some role of the caller grants `permission`.
    pub fn has_permission(&self, permission: Permission) -> (b: bool)
        ensures
            b == context_grants(self.roles@, permission),
    {
        let mut i: usize = 0;
        while i < self.roles.len()
            invariant
                i <= self.roles@.len(),
                forall|k: int| 0 <= k < i ==> !#[trigger] role_grants(self.roles@[k].permission_set(), permission),
            decreases self.roles.len() - i,
        {
            if self.roles[i].has_permission(permission) {
                return true;
            }
            i = i + 1;
        }
        false
    }
}

/// A protected entity: its type, and optionally its id and owner.
#[derive(Debug, Clone)]
pub struct Resource {
    pub resource_type: String,
    pub resource_id: Option<String>,
    pub owner_id: Option<String>,
}

impl Resource {
    /// A resource type with no id or owner.
    pub fn new(resource_type: &str) -> (r: Self)
        ensures
            r.resource_type@ == resource_type@,
            r.resource_id is None,
            r.owner_id is None,
    {
        Resource { resource_type: owned(resource_type), resource_id: None, owner_id: None }
    }

    /// The resource with id `id`.
    pub fn with_id(self, id: &str) -> (r: Self)
        ensures
            r.resource_type == self.resource_type,
            r.resource_id matches Some(i) && i@ == id@,
            r.owner_id == self.owner_id,
    {
        let mut r = self;
        r.resource_id = Some(owned(id));
        r
    }

    /// The resource owned by `owner_id`.
    pub fn with_owner(self, owner_id: &str) -> (r: Self)
        ensures
            r.resource_type == self.resource_type,
            r.resource_id == self.resource_id,
            r.owner_id matches Some(o) && o@ == owner_id@,
    {
        let mut r = self;
        r.owner_id = Some(owned(owner_id));
        r
    }
}

/// The outcome of checking roles and ownership.
#[derive(Debug, Clone, Copy, PartialEq, Eq, Structural)]
pub enum AccessCheck {
    /// The caller lacks the permission.
    Denied,
    /// The caller may proceed.
    Granted,
    /// The caller has the permission but neither owns the identified
    /// resource nor is an administrator: access depends on an explicit grant.
    NeedsExplicitAccess,
}

/// The access check for `ctx` on `resource` with `permission`.
pub open spec fn access_check_of(ctx: AuthContext, resource: Resource, permission: Permission) -> AccessCheck {
    if !context_grants(ctx.roles@, permission) {
        AccessCheck::Denied
    } else if resource.owner_id is Some && resource.resource_id is Some
        && resource.owner_id->0@ != ctx.user_id@ && !context_grants(ctx.roles@, Permission::Admin) {
        AccessCheck::NeedsExplicitAccess
    } else {
        AccessCheck::Granted
    }
}

/// Checks roles and ownership.
pub fn access_check(ctx: &AuthContext, resource: &Resource, permission: Permission) -> (r: AccessCheck)
    ensures
        r == access_check_of(*ctx, *resource, permission),
{
    if !ctx.has_permission(permission) {
        return AccessCheck::Denied;
    }
    match (&resource.owner_id, &resource.resource_id) {
        (Some(owner), Some(_)) => {
            if !str_eq(owner.as_str(), ctx.user_id.as_str()) && !ctx.has_permission(Permission::Admin) {
                return AccessCheck::NeedsExplicitAccess;
            }
        },
        _ => {},
    }
    AccessCheck::Granted
}

/// Whether the operation is authorized, given whether the caller holds an
/// explicit grant on the resource (consulted only when the check needs it).
pub fn authorize_with_access(ctx: &AuthContext, resource: &Resource, permission: Permission, has_explicit_access: bool) -> (b: bool)
    ensures
        b == match access_check_of(*ctx, *resource, permission) {
            AccessCheck::Denied => false,
            AccessCheck::Granted => true,
            AccessCheck::NeedsExplicitAccess => has_explicit_access,
        },
{
    match access_check(ctx, resource, permission) {
        AccessCheck::Denied => false,
        AccessCheck::Granted => true,
        AccessCheck::NeedsExplicitAccess => has_explicit_access,
    }
}

/// Record operations of the authorized database service.
#[derive(Debug, Clone, Copy, PartialEq, Eq, Structural)]
pub enum RecordOperation {
    Create,
    ReadById,
    ReadByField,
    Update,
    Delete,
    CustomQuery,
}

/// The permission each operation needs.
pub open spec fn operation_permission_of(op: RecordOperation) -> Permission {
    match op {
        RecordOperation::Create => Permission::Create,
        RecordOperation::ReadById | RecordOperation::ReadByField | RecordOperation::CustomQuery => Permission::Read,
        RecordOperation::Update => Permission::Update,
        RecordOperation::Delete => Permission::Delete,
    }
}

/// The message of a refused operation.
pub open spec fn denial_message(op: RecordOperation) -> Seq<char> {
    match op {
        RecordOperation::Create => "Unauthorized to create this resource"@,
        RecordOperation::ReadById => "Unauthorized to read this resource"@,
        RecordOperation::ReadByField => "Unauthorized to read this resource type"@,
        RecordOperation::Update => "Unauthorized to update this resource"@,
        RecordOperation::Delete => "Unauthorized to delete this resource"@,
        RecordOperation::CustomQuery => "Unauthorized to run custom queries"@,
    }
}

/// The operation addresses one record by id.
pub open spec fn targets_record(op: RecordOperation) -> bool {
    op == RecordOperation::ReadById || op == RecordOperation::Update || op == RecordOperation::Delete
}

/// The permission an operation needs.
pub fn operation_permission(op: RecordOperation) -> (p: Permission)
    ensures
        p == operation_permission_of(op),
{
    match op {
        RecordOperation::Create => Permission::Create,
        RecordOperation::ReadById | RecordOperation::ReadByField | RecordOperation::CustomQuery => Permission::Read,
        RecordOperation::Update => Permission::Update,
        RecordOperation::Delete => Permission::Delete,
    }
}

/// The resource an operation on `table` is checked against: the record
/// `record_id` for operations on one record, the table otherwise.
pub fn operation_resource(table: &str, op: RecordOperation, record_id: &str) -> (r: Resource)
    ensures
        r.resource_type@ == table@,
        r.owner_id is None,
        targets_record(op) ==> (r.resource_id matches Some(i) && i@ == record_id@),
        !targets_record(op) ==> r.resource_id is None,
{
    let r = Resource::new(table);
    match op {
        RecordOperation::ReadById | RecordOperation::Update | RecordOperation::Delete => r.with_id(record_id),
        _ => r,
    }
}

/// An ASCII letter.
pub open spec fn is_ascii_letter(c: char) -> bool {
    ('a' <= c && c <= 'z') || ('A' <= c && c <= 'Z')
}

/// An ASCII letter, digit or underscore.
pub open spec fn is_ident_char(c: char) -> bool {
    is_ascii_letter(c) || ('0' <= c && c <= '9') || c == '_'
}

/// A safe SQL identifier: a letter or underscore, then letters, digits and underscores.
pub open spec fn valid_identifier(s: Seq<char>) -> bool {
    s.len() > 0 && (is_ascii_letter(s[0]) || s[0] == '_') && forall|i: int| 0 <= i < s.len() ==> #[trigger] is_ident_char(s[i])
}

/// Whether `s` is a safe SQL identifier.
pub fn is_valid_identifier(s: &str) -> (b: bool)
    ensures
        b == valid_identifier(s@),
{
    let v = chars_of(s);
    if v.len() == 0 {
        return false;
    }
    let first = v[0];
    if !(('a' <= first && first <= 'z') || ('A' <= first && first <= 'Z') || first == '_') {
        return false;
    }
    let mut i: usize = 0;
    while i < v.len()
        invariant
            v@ == s@,
            i <= v@.len(),
            forall|k: int| 0 <= k < i ==> #[trigger] is_ident_char(v@[k]),
        decreases v.len() - i,
    {
        let c = v[i];
        if !(('a' <= c && c <= 'z') || ('A' <= c && c <= 'Z') || ('0' <= c && c <= '9') || c == '_') {
            assert(!is_ident_char(v@[i as int]));
            return false;
        }
        i = i + 1;
    }
    true
}

/// Whether the operation may run, given the authorization result; for a
/// lookup by field, `field` is the field name.
pub fn operation_gate(ctx: &AuthContext, op: RecordOperation, authorized: bool, field: &str) -> (r: Result<(), AppError>)
    ensures
        (!authorized || (op == RecordOperation::CustomQuery && !context_grants(ctx.roles@, Permission::Admin)))
            ==> (r matches Err(AppError::InvalidInput(m)) && m@ == denial_message(op)),
        (authorized && !(op == RecordOperation::CustomQuery && !context_grants(ctx.roles@, Permission::Admin))
            && op == RecordOperation::ReadByField && !valid_identifier(field@))
            ==> (r matches Err(AppError::InvalidInput(m)) && m@ == "Invalid field name: "@ + field@),
        r is Ok <==> authorized && !(op == RecordOperation::CustomQuery && !context_grants(ctx.roles@, Permission::Admin))
            && !(op == RecordOperation::ReadByField && !valid_identifier(field@)),
{
    let denied = !authorized || (op == RecordOperation::CustomQuery && !ctx.has_permission(Permission::Admin));
    if denied {
        let msg = match op {
            RecordOperation::Create => owned("Unauthorized to create this resource"),
            RecordOperation::ReadById => owned("Unauthorized to read this resource"),
            RecordOperation::ReadByField => owned("Unauthorized to read this resource type"),
            RecordOperation::Update => owned("Unauthorized to update this resource"),
            RecordOperation::Delete => owned("Unauthorized to delete this resource"),
            RecordOperation::CustomQuery => owned("Unauthorized to run custom queries"),
        };
        return Err(AppError::InvalidInput(msg));
    }
    if op == RecordOperation::ReadByField && !is_valid_identifier(field) {
        let mut msg = owned("Invalid field name: ");
        msg.append(field);
        return Err(AppError::InvalidInput(msg));
    }
    Ok(())
}

/// Law: `Admin` grants every permission, to a role and to a caller holding it.
pub proof fn law_admin_grants_everything(ctx: AuthContext, p: Permission)
    requires
        context_grants(ctx.roles@, Permission::Admin),
    ensures
        context_grants(ctx.roles@, p),
{
    let i = choose|i: int| 0 <= i < ctx.roles@.len() && #[trigger] role_grants(ctx.roles@[i].permission_set(), Permission::Admin);
    assert(role_grants(ctx.roles@[i].permission_set(), p));
}

/// Law: access is granted only to a caller holding the permission, and an
/// owner or an administrator holding it never depends on an explicit grant.
pub proof fn law_access_needs_permission(ctx: AuthContext, resource: Resource, p: Permission)
    ensures
        access_check_of(ctx, resource, p) != AccessCheck::Denied <==> context_grants(ctx.roles@, p),
        context_grants(ctx.roles@, p) && (context_grants(ctx.roles@, Permission::Admin)
            || (resource.owner_id matches Some(o) && o@ == ctx.user_id@))
            ==> access_check_of(ctx, resource, p) == AccessCheck::Granted,
{
}

/// Law: adding a role never takes a permission away.
pub proof fn law_roles_only_add(ctx: AuthContext, role: Role, p: Permission)
    requires
        context_grants(ctx.roles@, p),
    ensures
        context_grants(ctx.roles@.push(role), p),
{
    let i = choose|i: int| 0 <= i < ctx.roles@.len() && #[trigger] role_grants(ctx.roles@[i].permission_set(), p);
    assert(ctx.roles@.push(role)[i] == ctx.roles@[i]);
}

} // verus!
