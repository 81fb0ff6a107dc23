//! The payloads a Forgejo instance sends, and how each is read from a JSON
//! document.
//!
//! Members are read in the order the records list them, and the first fault
//! met is the one reported.

use crate::api::error::{SchemaFault, SchemaFaultView};
use crate::json::{
    each_of, get_integer, get_list, get_optional_flag, get_optional_string, get_present,
    get_required, get_string, integer_field, lemma_each_of_fault, lemma_each_of_next, list_field,
    member_of, optional_flag_field, optional_string_field, present_member, required_member,
    string_field, Reading,
};
use serde_json::Value;
use vstd::prelude::*;

verus! {

/// An individual account.
#[derive(Debug)]
pub struct User {
    pub id: i64,
    pub username: String,
}

pub struct UserView {
    pub id: i64,
    pub username: Seq<char>,
}

impl View for User {
    type V = UserView;

    open spec fn view(&self) -> UserView {
        UserView {
            id: self.id,
            username: self.username@,
        }
    }
}

impl DeepView for User {
    type V = UserView;

    open spec fn deep_view(&self) -> UserView {
        self@
    }
}

/// The first fault among the members of an account, in the order they are read.
pub open spec fn user_fault(v: Value) -> Option<SchemaFaultView> {
    Reading::begin()
        .with(integer_field(v, "id"@))
        .with(string_field(v, "username"@))
        .fault
}

/// The account that a JSON value describes.
pub open spec fn user_of(v: Value) -> Result<UserView, SchemaFaultView> {
    match user_fault(v) {
        Some(e) => Err(e),
        None => Ok(
            UserView {
                id: integer_field(v, "id"@)->Ok_0,
                username: string_field(v, "username"@)->Ok_0,
            },
        ),
    }
}

/// Reads an account from a JSON value.
pub fn decode_user(v: &Value) -> (r: Result<User, SchemaFault>)
    ensures
        r matches Ok(x) ==> user_of(*v) == Ok::<UserView, SchemaFaultView>(x@),
        r matches Err(e) ==> user_of(*v) == Err::<UserView, SchemaFaultView>(e@),
{
    let id = get_integer(v, "id")?;
    let username = get_string(v, "username")?;
    Ok(User { id, username })
}

/// A required member that is an account.
pub open spec fn user_field(v: Value, key: Seq<char>) -> Result<UserView, SchemaFaultView> {
    match required_member(v, key) {
        Err(e) => Err(e),
        Ok(m) => user_of(m),
    }
}

/// Reads the member `key`, which must be an account.
fn get_user(v: &Value, key: &str) -> (r: Result<User, SchemaFault>)
    ensures
        r matches Ok(x) ==> user_field(*v, key@) == Ok::<UserView, SchemaFaultView>(x@),
        r matches Err(e) ==> user_field(*v, key@) == Err::<UserView, SchemaFaultView>(e@),
{
    decode_user(get_required(v, key)?)
}

/// An optional member that is an account.
pub open spec fn optional_user_field(v: Value, key: Seq<char>) -> Result<
    Option<UserView>,
    SchemaFaultView,
> {
    match present_member(v, key) {
        None => Ok(None),
        Some(m) => match user_of(m) {
            Err(e) => Err(e),
            Ok(x) => Ok(Some(x)),
        },
    }
}

/// Reads the member `key`, which may be absent or `null` and must else be
/// an account.
fn get_optional_user(v: &Value, key: &str) -> (r: Result<Option<User>, SchemaFault>)
    ensures
        r matches Ok(x) ==> optional_user_field(*v, key@) == Ok::<
            Option<UserView>,
            SchemaFaultView,
        >(x.deep_view()),
        r matches Err(e) ==> optional_user_field(*v, key@) == Err::<
            Option<UserView>,
            SchemaFaultView,
        >(e@),
{
    match get_present(v, key) {
        None => Ok(None),
        Some(m) => Ok(Some(decode_user(m)?)),
    }
}

/// An organization.
#[derive(Debug)]
pub struct Organization {
    pub id: i64,
    pub username: String,
}

pub struct OrganizationView {
    pub id: i64,
    pub username: Seq<char>,
}

impl View for Organization {
    type V = OrganizationView;

    open spec fn view(&self) -> OrganizationView {
        OrganizationView {
            id: self.id,
            username: self.username@,
        }
    }
}

impl DeepView for Organization {
    type V = OrganizationView;

    open spec fn deep_view(&self) -> OrganizationView {
        self@
    }
}

/// The first fault among the members of an organization, in the order they are read.
pub open spec fn organization_fault(v: Value) -> Option<SchemaFaultView> {
    Reading::begin()
        .with(integer_field(v, "id"@))
        .with(string_field(v, "username"@))
        .fault
}

/// The organization that a JSON value describes.
pub open spec fn organization_of(v: Value) -> Result<OrganizationView, SchemaFaultView> {
    match organization_fault(v) {
        Some(e) => Err(e),
        None => Ok(
            OrganizationView {
                id: integer_field(v, "id"@)->Ok_0,
                username: string_field(v, "username"@)->Ok_0,
            },
        ),
    }
}

/// Reads an organization from a JSON value.
pub fn decode_organization(v: &Value) -> (r: Result<Organization, SchemaFault>)
    ensures
        r matches Ok(x) ==> organization_of(*v) == Ok::<OrganizationView, SchemaFaultView>(x@),
        r matches Err(e) ==> organization_of(*v) == Err::<OrganizationView, SchemaFaultView>(e@),
{
    let id = get_integer(v, "id")?;
    let username = get_string(v, "username")?;
    Ok(Organization { id, username })
}

/// A required member that is an organization.
pub open spec fn organization_field(v: Value, key: Seq<char>) -> Result<
    OrganizationView,
    SchemaFaultView,
> {
    match required_member(v, key) {
        Err(e) => Err(e),
        Ok(m) => organization_of(m),
    }
}

/// Reads the member `key`, which must be an organization.
fn get_organization(v: &Value, key: &str) -> (r: Result<Organization, SchemaFault>)
    ensures
        r matches Ok(x) ==> organization_field(*v, key@) == Ok::<
            OrganizationView,
            SchemaFaultView,
        >(x@),
        r matches Err(e) ==> organization_field(*v, key@) == Err::<
            OrganizationView,
            SchemaFaultView,
        >(e@),
{
    decode_organization(get_required(v, key)?)
}

/// An optional member that is an organization.
pub open spec fn optional_organization_field(v: Value, key: Seq<char>) -> Result<
    Option<OrganizationView>,
    SchemaFaultView,
> {
    match present_member(v, key) {
        None => Ok(None),
        Some(m) => match organization_of(m) {
            Err(e) => Err(e),
            Ok(x) => Ok(Some(x)),
        },
    }
}

/// Reads the member `key`, which may be absent or `null` and must else be
/// an organization.
fn get_optional_organization(v: &Value, key: &str) -> (r: Result<Option<Organization>, SchemaFault>)
    ensures
        r matches Ok(x) ==> optional_organization_field(*v, key@) == Ok::<
            Option<OrganizationView>,
            SchemaFaultView,
        >(x.deep_view()),
        r matches Err(e) ==> optional_organization_field(*v, key@) == Err::<
            Option<OrganizationView>,
            SchemaFaultView,
        >(e@),
{
    match get_present(v, key) {
        None => Ok(None),
        Some(m) => Ok(Some(decode_organization(m)?)),
    }
}

/// A team of an organization.
#[derive(Debug)]
pub struct Team {
    pub id: i64,
    pub slug: String,
    pub name: String,
    pub privacy: String,
    pub permission: String,
}

pub struct TeamView {
    pub id: i64,
    pub slug: Seq<char>,
    pub name: Seq<char>,
    pub privacy: Seq<char>,
    pub permission: Seq<char>,
}

impl View for Team {
    type V = TeamView;

    open spec fn view(&self) -> TeamView {
        TeamView {
            id: self.id,
            slug: self.slug@,
            name: self.name@,
            privacy: self.privacy@,
            permission: self.permission@,
        }
    }
}

impl DeepView for Team {
    type V = TeamView;

    open spec fn deep_view(&self) -> TeamView {
        self@
    }
}

/// The first fault among the members of a team, in the order they are read.
pub open spec fn team_fault(v: Value) -> Option<SchemaFaultView> {
    Reading::begin()
        .with(integer_field(v, "id"@))
        .with(string_field(v, "slug"@))
        .with(string_field(v, "name"@))
        .with(string_field(v, "privacy"@))
        .with(string_field(v, "permission"@))
        .fault
}

/// The team that a JSON value describes.
pub open spec fn team_of(v: Value) -> Result<TeamView, SchemaFaultView> {
    match team_fault(v) {
        Some(e) => Err(e),
        None => Ok(
            TeamView {
                id: integer_field(v, "id"@)->Ok_0,
                slug: string_field(v, "slug"@)->Ok_0,
                name: string_field(v, "name"@)->Ok_0,
                privacy: string_field(v, "privacy"@)->Ok_0,
                permission: string_field(v, "permission"@)->Ok_0,
            },
        ),
    }
}

/// Reads a team from a JSON value.
pub fn decode_team(v: &Value) -> (r: Result<Team, SchemaFault>)
    ensures
        r matches Ok(x) ==> team_of(*v) == Ok::<TeamView, SchemaFaultView>(x@),
        r matches Err(e) ==> team_of(*v) == Err::<TeamView, SchemaFaultView>(e@),
{
    let id = get_integer(v, "id")?;
    let slug = get_string(v, "slug")?;
    let name = get_string(v, "name")?;
    let privacy = get_string(v, "privacy")?;
    let permission = get_string(v, "permission")?;
    Ok(Team { id, slug, name, privacy, permission })
}

/// A required member that is a team.
pub open spec fn team_field(v: Value, key: Seq<char>) -> Result<TeamView, SchemaFaultView> {
    match required_member(v, key) {
        Err(e) => Err(e),
        Ok(m) => team_of(m),
    }
}

/// Reads the member `key`, which must be a team.
fn get_team(v: &Value, key: &str) -> (r: Result<Team, SchemaFault>)
    ensures
        r matches Ok(x) ==> team_field(*v, key@) == Ok::<TeamView, SchemaFaultView>(x@),
        r matches Err(e) ==> team_field(*v, key@) == Err::<TeamView, SchemaFaultView>(e@),
{
    decode_team(get_required(v, key)?)
}

/// One commit of a push.
#[derive(Debug)]
pub struct Commit {
    pub distinct: Option<bool>,
    pub id: String,
    pub message: String,
    pub timestamp: String,
    pub tree_id: Option<String>,
    pub url: String,
}

pub struct CommitView {
    pub distinct: Option<bool>,
    pub id: Seq<char>,
    pub message: Seq<char>,
    pub timestamp: Seq<char>,
    pub tree_id: Option<Seq<char>>,
    pub url: Seq<char>,
}

impl View for Commit {
    type V = CommitView;

    open spec fn view(&self) -> CommitView {
        CommitView {
            distinct: self.distinct,
            id: self.id@,
            message: self.message@,
            timestamp: self.timestamp@,
            tree_id: self.tree_id.deep_view(),
            url: self.url@,
        }
    }
}

impl DeepView for Commit {
    type V = CommitView;

    open spec fn deep_view(&self) -> CommitView {
        self@
    }
}

/// The first fault among the members of a commit, in the order they are read.
pub open spec fn commit_fault(v: Value) -> Option<SchemaFaultView> {
    Reading::begin()
        .with(optional_flag_field(v, "distinct"@))
        .with(string_field(v, "id"@))
        .with(string_field(v, "message"@))
        .with(string_field(v, "timestamp"@))
        .with(optional_string_field(v, "tree_id"@))
        .with(string_field(v, "url"@))
        .fault
}

/// The commit that a JSON value describes.
pub open spec fn commit_of(v: Value) -> Result<CommitView, SchemaFaultView> {
    match commit_fault(v) {
        Some(e) => Err(e),
        None => Ok(
            CommitView {
                distinct: optional_flag_field(v, "distinct"@)->Ok_0,
                id: string_field(v, "id"@)->Ok_0,
                message: string_field(v, "message"@)->Ok_0,
                timestamp: string_field(v, "timestamp"@)->Ok_0,
                tree_id: optional_string_field(v, "tree_id"@)->Ok_0,
                url: string_field(v, "url"@)->Ok_0,
            },
        ),
    }
}

/// Reads a commit from a JSON value.
pub fn decode_commit(v: &Value) -> (r: Result<Commit, SchemaFault>)
    ensures
        r matches Ok(x) ==> commit_of(*v) == Ok::<CommitView, SchemaFaultView>(x@),
        r matches Err(e) ==> commit_of(*v) == Err::<CommitView, SchemaFaultView>(e@),
{
    let distinct = get_optional_flag(v, "distinct")?;
    let id = get_string(v, "id")?;
    let message = get_string(v, "message")?;
    let timestamp = get_string(v, "timestamp")?;
    let tree_id = get_optional_string(v, "tree_id")?;
    let url = get_string(v, "url")?;
    Ok(Commit { distinct, id, message, timestamp, tree_id, url })
}

/// An optional member that is a commit.
pub open spec fn optional_commit_field(v: Value, key: Seq<char>) -> Result<
    Option<CommitView>,
    SchemaFaultView,
> {
    match present_member(v, key) {
        None => Ok(None),
        Some(m) => match commit_of(m) {
            Err(e) => Err(e),
            Ok(x) => Ok(Some(x)),
        },
    }
}

/// Reads the member `key`, which may be absent or `null` and must else be
/// a commit.
fn get_optional_commit(v: &Value, key: &str) -> (r: Result<Option<Commit>, SchemaFault>)
    ensures
        r matches Ok(x) ==> optional_commit_field(*v, key@) == Ok::<
            Option<CommitView>,
            SchemaFaultView,
        >(x.deep_view()),
        r matches Err(e) ==> optional_commit_field(*v, key@) == Err::<
            Option<CommitView>,
            SchemaFaultView,
        >(e@),
{
    match get_present(v, key) {
        None => Ok(None),
        Some(m) => Ok(Some(decode_commit(m)?)),
    }
}

/// How one element of an array of commits is read.
pub open spec fn commit_reader() -> spec_fn(Value) -> Result<CommitView, SchemaFaultView> {
    |m: Value| commit_of(m)
}

/// A required member that is an array of commits: the commits, in order,
/// or the fault of the first element that is faulty.
pub open spec fn commit_list_field(v: Value, key: Seq<char>) -> Result<
    Seq<CommitView>,
    SchemaFaultView,
> {
    match list_field(v, key) {
        Err(e) => Err(e),
        Ok(items) => each_of(items, commit_reader()),
    }
}

/// Reads commits from a sequence of JSON values, up to the first that is
/// faulty.
pub fn decode_commit_list(items: &Vec<Value>) -> (r: Result<Vec<Commit>, SchemaFault>)
    ensures
        r matches Ok(x) ==> each_of(items@, commit_reader()) == Ok::<
            Seq<CommitView>,
            SchemaFaultView,
        >(x.deep_view()),
        r matches Err(e) ==> each_of(items@, commit_reader()) == Err::<
            Seq<CommitView>,
            SchemaFaultView,
        >(e@),
{
    let mut out: Vec<Commit> = Vec::new();
    let mut i: usize = 0;
    assert(items@.take(0) =~= Seq::<Value>::empty());
    assert(out.deep_view() =~= Seq::<CommitView>::empty());
    while i < items.len()
        invariant
            i <= items.len(),
            each_of(items@.take(i as int), commit_reader()) == Ok::<
                Seq<CommitView>,
                SchemaFaultView,
            >(out.deep_view()),
        decreases items.len() - i,
    {
        let ghost front = out.deep_view();
        proof {
            lemma_each_of_next(items@, commit_reader(), i as int);
        }
        match decode_commit(&items[i]) {
            Ok(x) => {
                out.push(x);
                assert(out.deep_view() =~= front.push(x@));
            },
            Err(e) => {
                proof {
                    lemma_each_of_fault(items@, commit_reader(), i + 1);
                }
                return Err(e);
            },
        }
        i += 1;
    }
    assert(items@.take(items.len() as int) =~= items@);
    Ok(out)
}

/// Reads the member `key`, which must be an array of commits.
fn get_commit_list(v: &Value, key: &str) -> (r: Result<Vec<Commit>, SchemaFault>)
    ensures
        r matches Ok(x) ==> commit_list_field(*v, key@) == Ok::<Seq<CommitView>, SchemaFaultView>(
            x.deep_view(),
        ),
        r matches Err(e) ==> commit_list_field(*v, key@) == Err::<
            Seq<CommitView>,
            SchemaFaultView,
        >(e@),
{
    decode_commit_list(get_list(v, key)?)
}

/// A repository and its owner.
#[derive(Debug)]
pub struct Repository {
    pub name: String,
    pub full_name: String,
    pub owner: User,
    pub description: Option<String>,
}

pub struct RepositoryView {
    pub name: Seq<char>,
    pub full_name: Seq<char>,
    pub owner: UserView,
    pub description: Option<Seq<char>>,
}

impl View for Repository {
    type V = RepositoryView;

    open spec fn view(&self) -> RepositoryView {
        RepositoryView {
            name: self.name@,
            full_name: self.full_name@,
            owner: self.owner@,
            description: self.description.deep_view(),
        }
    }
}

impl DeepView for Repository {
    type V = RepositoryView;

    open spec fn deep_view(&self) -> RepositoryView {
        self@
    }
}

/// The first fault among the members of a repository, in the order they are read.
pub open spec fn repository_fault(v: Value) -> Option<SchemaFaultView> {
    Reading::begin()
        .with(string_field(v, "name"@))
        .with(string_field(v, "full_name"@))
        .with(user_field(v, "owner"@))
        .with(optional_string_field(v, "description"@))
        .fault
}

/// The repository that a JSON value describes.
pub open spec fn repository_of(v: Value) -> Result<RepositoryView, SchemaFaultView> {
    match repository_fault(v) {
        Some(e) => Err(e),
        None => Ok(
            RepositoryView {
                name: string_field(v, "name"@)->Ok_0,
                full_name: string_field(v, "full_name"@)->Ok_0,
                owner: user_field(v, "owner"@)->Ok_0,
                description: optional_string_field(v, "description"@)->Ok_0,
            },
        ),
    }
}

/// Reads a repository from a JSON value.
pub fn decode_repository(v: &Value) -> (r: Result<Repository, SchemaFault>)
    ensures
        r matches Ok(x) ==> repository_of(*v) == Ok::<RepositoryView, SchemaFaultView>(x@),
        r matches Err(e) ==> repository_of(*v) == Err::<RepositoryView, SchemaFaultView>(e@),
{
    let name = get_string(v, "name")?;
    let full_name = get_string(v, "full_name")?;
    let owner = get_user(v, "owner")?;
    let description = get_optional_string(v, "description")?;
    Ok(Repository { name, full_name, owner, description })
}

/// A required member that is a repository.
pub open spec fn repository_field(v: Value, key: Seq<char>) -> Result<
    RepositoryView,
    SchemaFaultView,
> {
    match required_member(v, key) {
        Err(e) => Err(e),
        Ok(m) => repository_of(m),
    }
}

/// Reads the member `key`, which must be a repository.
fn get_repository(v: &Value, key: &str) -> (r: Result<Repository, SchemaFault>)
    ensures
        r matches Ok(x) ==> repository_field(*v, key@) == Ok::<RepositoryView, SchemaFaultView>(x@),
        r matches Err(e) ==> repository_field(*v, key@) == Err::<
            RepositoryView,
            SchemaFaultView,
        >(e@),
{
    decode_repository(get_required(v, key)?)
}

/// An optional member that is a repository.
pub open spec fn optional_repository_field(v: Value, key: Seq<char>) -> Result<
    Option<RepositoryView>,
    SchemaFaultView,
> {
    match present_member(v, key) {
        None => Ok(None),
        Some(m) => match repository_of(m) {
            Err(e) => Err(e),
            Ok(x) => Ok(Some(x)),
        },
    }
}

/// Reads the member `key`, which may be absent or `null` and must else be
/// a repository.
fn get_optional_repository(v: &Value, key: &str) -> (r: Result<Option<Repository>, SchemaFault>)
    ensures
        r matches Ok(x) ==> optional_repository_field(*v, key@) == Ok::<
            Option<RepositoryView>,
            SchemaFaultView,
        >(x.deep_view()),
        r matches Err(e) ==> optional_repository_field(*v, key@) == Err::<
            Option<RepositoryView>,
            SchemaFaultView,
        >(e@),
{
    match get_present(v, key) {
        None => Ok(None),
        Some(m) => Ok(Some(decode_repository(m)?)),
    }
}

/// A change of who belongs to a team.
#[derive(Debug)]
pub struct Membership {
    pub action: String,
    pub member: Option<User>,
    pub organization: Organization,
    pub repository: Option<Repository>,
    pub scope: String,
    pub sender: Option<User>,
    pub team: Team,
}

pub struct MembershipView {
    pub action: Seq<char>,
    pub member: Option<UserView>,
    pub organization: OrganizationView,
    pub repository: Option<RepositoryView>,
    pub scope: Seq<char>,
    pub sender: Option<UserView>,
    pub team: TeamView,
}

impl View for Membership {
    type V = MembershipView;

    open spec fn view(&self) -> MembershipView {
        MembershipView {
            action: self.action@,
            member: self.member.deep_view(),
            organization: self.organization@,
            repository: self.repository.deep_view(),
            scope: self.scope@,
            sender: self.sender.deep_view(),
            team: self.team@,
        }
    }
}

impl DeepView for Membership {
    type V = MembershipView;

    open spec fn deep_view(&self) -> MembershipView {
        self@
    }
}

/// The first fault among the members of a membership event, in the order they are read.
pub open spec fn membership_fault(v: Value) -> Option<SchemaFaultView> {
    Reading::begin()
        .with(string_field(v, "action"@))
        .with(optional_user_field(v, "member"@))
        .with(organization_field(v, "organization"@))
        .with(optional_repository_field(v, "repository"@))
        .with(string_field(v, "scope"@))
        .with(optional_user_field(v, "sender"@))
        .with(team_field(v, "team"@))
        .fault
}

/// The membership event that a JSON value describes.
pub open spec fn membership_of(v: Value) -> Result<MembershipView, SchemaFaultView> {
    match membership_fault(v) {
        Some(e) => Err(e),
        None => Ok(
            MembershipView {
                action: string_field(v, "action"@)->Ok_0,
                member: optional_user_field(v, "member"@)->Ok_0,
                organization: organization_field(v, "organization"@)->Ok_0,
                repository: optional_repository_field(v, "repository"@)->Ok_0,
                scope: string_field(v, "scope"@)->Ok_0,
                sender: optional_user_field(v, "sender"@)->Ok_0,
                team: team_field(v, "team"@)->Ok_0,
            },
        ),
    }
}

/// Reads a membership event from a JSON value.
pub fn decode_membership(v: &Value) -> (r: Result<Membership, SchemaFault>)
    ensures
        r matches Ok(x) ==> membership_of(*v) == Ok::<MembershipView, SchemaFaultView>(x@),
        r matches Err(e) ==> membership_of(*v) == Err::<MembershipView, SchemaFaultView>(e@),
{
    let action = get_string(v, "action")?;
    let member = get_optional_user(v, "member")?;
    let organization = get_organization(v, "organization")?;
    let repository = get_optional_repository(v, "repository")?;
    let scope = get_string(v, "scope")?;
    let sender = get_optional_user(v, "sender")?;
    let team = get_team(v, "team")?;
    Ok(Membership { action, member, organization, repository, scope, sender, team })
}

/// A membership event is read from its own members alone: two values that hold the
/// same under each of them describe the same event, whatever else they hold.
pub proof fn law_membership_reads_its_members(v: Value, w: Value)
    requires
        member_of(v, "action"@) == member_of(w, "action"@),
        member_of(v, "member"@) == member_of(w, "member"@),
        member_of(v, "organization"@) == member_of(w, "organization"@),
        member_of(v, "repository"@) == member_of(w, "repository"@),
        member_of(v, "scope"@) == member_of(w, "scope"@),
        member_of(v, "sender"@) == member_of(w, "sender"@),
        member_of(v, "team"@) == member_of(w, "team"@),
    ensures
        membership_of(v) == membership_of(w),
{
    assert(string_field(v, "action"@) == string_field(w, "action"@));
    assert(optional_user_field(v, "member"@) == optional_user_field(w, "member"@));
    assert(organization_field(v, "organization"@) == organization_field(w, "organization"@));
    assert(optional_repository_field(v, "repository"@) == optional_repository_field(
        w,
        "repository"@,
    ));
    assert(string_field(v, "scope"@) == string_field(w, "scope"@));
    assert(optional_user_field(v, "sender"@) == optional_user_field(w, "sender"@));
    assert(team_field(v, "team"@) == team_field(w, "team"@));
}

/// Commits pushed to a reference. `git_ref` is the member `ref`.
#[derive(Debug)]
pub struct Push {
    pub after: String,
    pub base_ref: Option<String>,
    pub before: String,
    pub compare_url: String,
    pub created: Option<bool>,
    pub deleted: Option<bool>,
    pub forced: Option<bool>,
    pub git_ref: String,
    pub head_commit: Option<Commit>,
    pub repository: Repository,
    pub pusher: User,
    pub commits: Vec<Commit>,
    pub sender: Option<User>,
    pub organization: Option<Organization>,
}

pub struct PushView {
    pub after: Seq<char>,
    pub base_ref: Option<Seq<char>>,
    pub before: Seq<char>,
    pub compare_url: Seq<char>,
    pub created: Option<bool>,
    pub deleted: Option<bool>,
    pub forced: Option<bool>,
    pub git_ref: Seq<char>,
    pub head_commit: Option<CommitView>,
    pub repository: RepositoryView,
    pub pusher: UserView,
    pub commits: Seq<CommitView>,
    pub sender: Option<UserView>,
    pub organization: Option<OrganizationView>,
}

impl View for Push {
    type V = PushView;

    open spec fn view(&self) -> PushView {
        PushView {
            after: self.after@,
            base_ref: self.base_ref.deep_view(),
            before: self.before@,
            compare_url: self.compare_url@,
            created: self.created,
            deleted: self.deleted,
            forced: self.forced,
            git_ref: self.git_ref@,
            head_commit: self.head_commit.deep_view(),
            repository: self.repository@,
            pusher: self.pusher@,
            commits: self.commits.deep_view(),
            sender: self.sender.deep_view(),
            organization: self.organization.deep_view(),
        }
    }
}

impl DeepView for Push {
    type V = PushView;

    open spec fn deep_view(&self) -> PushView {
        self@
    }
}

/// The first fault among the members of a push event, in the order they are read.
pub open spec fn push_fault(v: Value) -> Option<SchemaFaultView> {
    Reading::begin()
        .with(string_field(v, "after"@))
        .with(optional_string_field(v, "base_ref"@))
        .with(string_field(v, "before"@))
        .with(string_field(v, "compare_url"@))
        .with(optional_flag_field(v, "created"@))
        .with(optional_flag_field(v, "deleted"@))
        .with(optional_flag_field(v, "forced"@))
        .with(string_field(v, "ref"@))
        .with(optional_commit_field(v, "head_commit"@))
        .with(repository_field(v, "repository"@))
        .with(user_field(v, "pusher"@))
        .with(commit_list_field(v, "commits"@))
        .with(optional_user_field(v, "sender"@))
        .with(optional_organization_field(v, "organization"@))
        .fault
}

/// The push event that a JSON value describes.
pub open spec fn push_of(v: Value) -> Result<PushView, SchemaFaultView> {
    match push_fault(v) {
        Some(e) => Err(e),
        None => Ok(
            PushView {
                after: string_field(v, "after"@)->Ok_0,
                base_ref: optional_string_field(v, "base_ref"@)->Ok_0,
                before: string_field(v, "before"@)->Ok_0,
                compare_url: string_field(v, "compare_url"@)->Ok_0,
                created: optional_flag_field(v, "created"@)->Ok_0,
                deleted: optional_flag_field(v, "deleted"@)->Ok_0,
                forced: optional_flag_field(v, "forced"@)->Ok_0,
                git_ref: string_field(v, "ref"@)->Ok_0,
                head_commit: optional_commit_field(v, "head_commit"@)->Ok_0,
                repository: repository_field(v, "repository"@)->Ok_0,
                pusher: user_field(v, "pusher"@)->Ok_0,
                commits: commit_list_field(v, "commits"@)->Ok_0,
                sender: optional_user_field(v, "sender"@)->Ok_0,
                organization: optional_organization_field(v, "organization"@)->Ok_0,
            },
        ),
    }
}

/// Reads a push event from a JSON value.
pub fn decode_push(v: &Value) -> (r: Result<Push, SchemaFault>)
    ensures
        r matches Ok(x) ==> push_of(*v) == Ok::<PushView, SchemaFaultView>(x@),
        r matches Err(e) ==> push_of(*v) == Err::<PushView, SchemaFaultView>(e@),
{
    let after = get_string(v, "after")?;
    let base_ref = get_optional_string(v, "base_ref")?;
    let before = get_string(v, "before")?;
    let compare_url = get_string(v, "compare_url")?;
    let created = get_optional_flag(v, "created")?;
    let deleted = get_optional_flag(v, "deleted")?;
    let forced = get_optional_flag(v, "forced")?;
    let git_ref = get_string(v, "ref")?;
    let head_commit = get_optional_commit(v, "head_commit")?;
    let repository = get_repository(v, "repository")?;
    let pusher = get_user(v, "pusher")?;
    let commits = get_commit_list(v, "commits")?;
    let sender = get_optional_user(v, "sender")?;
    let organization = get_optional_organization(v, "organization")?;
    Ok(
        Push {
            after,
            base_ref,
            before,
            compare_url,
            created,
            deleted,
            forced,
            git_ref,
            head_commit,
            repository,
            pusher,
            commits,
            sender,
            organization,
        },
    )
}

/// A push event is read from its own members alone: two values that hold the
/// same under each of them describe the same event, whatever else they hold.
pub proof fn law_push_reads_its_members(v: Value, w: Value)
    requires
        member_of(v, "after"@) == member_of(w, "after"@),
        member_of(v, "base_ref"@) == member_of(w, "base_ref"@),
        member_of(v, "before"@) == member_of(w, "before"@),
        member_of(v, "compare_url"@) == member_of(w, "compare_url"@),
        member_of(v, "created"@) == member_of(w, "created"@),
        member_of(v, "deleted"@) == member_of(w, "deleted"@),
        member_of(v, "forced"@) == member_of(w, "forced"@),
        member_of(v, "ref"@) == member_of(w, "ref"@),
        member_of(v, "head_commit"@) == member_of(w, "head_commit"@),
        member_of(v, "repository"@) == member_of(w, "repository"@),
        member_of(v, "pusher"@) == member_of(w, "pusher"@),
        member_of(v, "commits"@) == member_of(w, "commits"@),
        member_of(v, "sender"@) == member_of(w, "sender"@),
        member_of(v, "organization"@) == member_of(w, "organization"@),
    ensures
        push_of(v) == push_of(w),
{
    assert(string_field(v, "after"@) == string_field(w, "after"@));
    assert(optional_string_field(v, "base_ref"@) == optional_string_field(w, "base_ref"@));
    assert(string_field(v, "before"@) == string_field(w, "before"@));
    assert(string_field(v, "compare_url"@) == string_field(w, "compare_url"@));
    assert(optional_flag_field(v, "created"@) == optional_flag_field(w, "created"@));
    assert(optional_flag_field(v, "deleted"@) == optional_flag_field(w, "deleted"@));
    assert(optional_flag_field(v, "forced"@) == optional_flag_field(w, "forced"@));
    assert(string_field(v, "ref"@) == string_field(w, "ref"@));
    assert(optional_commit_field(v, "head_commit"@) == optional_commit_field(w, "head_commit"@));
    assert(repository_field(v, "repository"@) == repository_field(w, "repository"@));
    assert(user_field(v, "pusher"@) == user_field(w, "pusher"@));
    assert(commit_list_field(v, "commits"@) == commit_list_field(w, "commits"@));
    assert(optional_user_field(v, "sender"@) == optional_user_field(w, "sender"@));
    assert(optional_organization_field(v, "organization"@) == optional_organization_field(
        w,
        "organization"@,
    ));
}

} // verus!
