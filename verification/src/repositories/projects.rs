//! The projects table: items, queries and deletes.
use vstd::prelude::*;
use crate::clock::{canonical_rfc3339, rfc3339_canonical};
use crate::error::Error;
use crate::clock::{unix_epoch, unix_epoch_rfc3339};
use crate::repositories::plans::{
    DeleteFailure, DeletePlan, PlanValue, PlanValueView, QueryPlan, one_value, opt_or, s_value,
    three_values, two_values, values_view,
};
use crate::models::{opt_string_view, CustomerId, Project, ProjectId, ProjectView};
use crate::repositories::keys::{append_attribute, is_canonical_time, key2, lemma_split_once_key, sep, sep_free};
use crate::text::{split_once, split_once_exec};

verus! {


/// A project as stored: `lsi1_sk` is `created_at&project_id`, `lsi2_sk` is `name&project_id`.
#[derive(Debug, Clone, PartialEq, Eq)]
pub struct DynamodbProject {
    pub pk: CustomerId,
    pub sk: ProjectId,
    pub lsi1_sk: String,
    pub lsi2_sk: String,
    pub is_locked: bool,
    pub updated_at: String,
}

pub struct DynamodbProjectView {
    pub pk: Seq<char>,
    pub sk: Seq<char>,
    pub lsi1_sk: Seq<char>,
    pub lsi2_sk: Seq<char>,
    pub is_locked: bool,
    pub updated_at: Seq<char>,
}

impl View for DynamodbProject {
    type V = DynamodbProjectView;

    open spec fn view(&self) -> DynamodbProjectView {
        DynamodbProjectView {
            pk: self.pk@,
            sk: self.sk@,
            lsi1_sk: self.lsi1_sk@,
            lsi2_sk: self.lsi2_sk@,
            is_locked: self.is_locked,
            updated_at: self.updated_at@,
        }
    }
}

/// The item stored for a project.
pub open spec fn project_item(p: ProjectView) -> DynamodbProjectView {
    DynamodbProjectView {
        pk: p.customer_id,
        sk: p.id,
        lsi1_sk: key2(p.created_at, p.id),
        lsi2_sk: key2(p.name, p.id),
        is_locked: p.is_locked,
        updated_at: p.updated_at,
    }
}

/// Reading the item panics where `lsi1_sk` has a separator and the text before it is no time.
pub open spec fn project_item_readable(item: DynamodbProjectView) -> bool {
    match split_once(item.lsi1_sk, sep()) {
        Some(parts) => rfc3339_canonical(parts.0) is Some,
        None => true,
    }
}

/// The project read from an item; a missing name or creation time is an unknown error.
pub open spec fn project_from_item(item: DynamodbProjectView) -> Result<ProjectView, Error> {
    match (split_once(item.lsi1_sk, sep()), split_once(item.lsi2_sk, sep())) {
        (Some(created), Some(name)) => Ok(
            ProjectView {
                id: item.sk,
                customer_id: item.pk,
                name: name.0,
                is_locked: item.is_locked,
                created_at: rfc3339_canonical(created.0)->0,
                updated_at: item.updated_at,
            },
        ),
        _ => Err(Error::UnknownError),
    }
}

pub open spec fn project_result_view(r: Result<Project, Error>) -> Result<ProjectView, Error> {
    match r {
        Ok(p) => Ok(p@),
        Err(e) => Err(e),
    }
}

/// A project's item holds its customer, id, lock and time of update unchanged, under the
/// keys `created_at&id` and `name&id`; reading an item gives back its id, customer, lock
/// and time of update unchanged.
pub proof fn lemma_projects_item_fields(p: ProjectView, item: DynamodbProjectView)
    ensures
        project_item(p).pk == p.customer_id,
        project_item(p).sk == p.id,
        project_item(p).is_locked == p.is_locked,
        project_item(p).updated_at == p.updated_at,
        project_item(p).lsi1_sk == p.created_at.push('&') + p.id,
        project_item(p).lsi2_sk == p.name.push('&') + p.id,
        project_from_item(item) matches Ok(q) ==> q.id == item.sk && q.customer_id == item.pk && q.is_locked == item.is_locked && q.updated_at == item.updated_at,
{
    assert(project_item(p).lsi1_sk =~= p.created_at.push('&') + p.id);
    assert(project_item(p).lsi2_sk =~= p.name.push('&') + p.id);
}

impl DynamodbProject {
    pub fn from(value: Project) -> (item: DynamodbProject)
        ensures
            item@ == project_item(value@),
            item@.pk == value@.customer_id,
            item@.sk == value@.id,
            item@.is_locked == value@.is_locked,
            item@.updated_at == value@.updated_at,
    {
        let lsi1_sk = append_attribute(value.created_at, value.id.as_str());
        let lsi2_sk = append_attribute(value.name, value.id.as_str());
        DynamodbProject {
            pk: value.customer_id,
            sk: value.id,
            lsi1_sk,
            lsi2_sk,
            is_locked: value.is_locked,
            updated_at: value.updated_at,
        }
    }

    pub fn try_into(self) -> (r: Result<Project, Error>)
        requires
            project_item_readable(self@),
        ensures
            project_result_view(r) == project_from_item(self@),
            r matches Ok(q) ==> q@.id == self@.sk && q@.customer_id == self@.pk && q@.is_locked == self@.is_locked && q@.updated_at == self@.updated_at,
    {
        let created = split_once_exec(self.lsi1_sk.as_str(), '&');
        let name = split_once_exec(self.lsi2_sk.as_str(), '&');
        match (created, name) {
            (Some(created), Some(name)) => {
                let created_at = canonical_rfc3339(created.0.as_str());
                match created_at {
                    Some(created_at) => Ok(
                        Project {
                            id: self.sk,
                            customer_id: self.pk,
                            name: name.0,
                            is_locked: self.is_locked,
                            created_at,
                            updated_at: self.updated_at,
                        },
                    ),
                    None => Err(Error::UnknownError),
                }
            },
            _ => Err(Error::UnknownError),
        }
    }

    /// Reads the item where that does not panic; `None` where it would.
    pub fn checked_try_into(self) -> (r: Option<Result<Project, Error>>)
        ensures
            r is Some <==> project_item_readable(self@),
            r is Some ==> project_result_view(r->0) == project_from_item(self@),
    {
        if self.readable() {
            Some(self.try_into())
        } else {
            None
        }
    }

    fn readable(&self) -> (b: bool)
        ensures
            b == project_item_readable(self@),
    {
        let created = split_once_exec(self.lsi1_sk.as_str(), '&');
        match &created {
            Some(parts) => canonical_rfc3339(parts.0.as_str()).is_some(),
            None => true,
        }
    }
}

/// Writing a project and reading it back gives the project, when its name and creation
/// time hold no separator and the time is a text that chrono writes back unchanged.
pub proof fn lemma_project_item_round_trip(p: ProjectView)
    requires
        sep_free(p.name),
        sep_free(p.created_at),
        is_canonical_time(p.created_at),
    ensures
        project_item_readable(project_item(p)),
        project_from_item(project_item(p)) == Ok::<ProjectView, Error>(p),
{
    lemma_split_once_key(p.created_at, p.id);
    lemma_split_once_key(p.name, p.id);
}


/// The projects read from the items of a page, in order, or the first error.
pub open spec fn projects_from_item_views(items: Seq<DynamodbProjectView>) -> Result<Seq<ProjectView>, Error>
    decreases items.len(),
{
    if items.len() == 0 {
        Ok(Seq::empty())
    } else {
        match projects_from_item_views(items.drop_last()) {
            Ok(qs) => match project_from_item(items.last()) {
                Ok(q) => Ok(qs.push(q)),
                Err(e) => Err(e),
            },
            Err(e) => Err(e),
        }
    }
}

pub open spec fn projects_view(v: Seq<Project>) -> Seq<ProjectView> {
    v.map_values(|q: Project| q@)
}

/// Reads every item of a page; every item must be readable.
pub fn projects_from_items(items: Vec<DynamodbProject>) -> (r: Result<Vec<Project>, Error>)
    requires
        forall|i: int| 0 <= i < items.len() ==> project_item_readable(#[trigger] items@[i]@),
    ensures
        match r {
            Ok(v) => projects_from_item_views(items@.map_values(|x: DynamodbProject| x@)) == Ok::<Seq<ProjectView>, Error>(projects_view(v@)),
            Err(e) => projects_from_item_views(items@.map_values(|x: DynamodbProject| x@)) == Err::<Seq<ProjectView>, Error>(e),
        },
{
    let ghost orig = items@;
    let ghost iv = items@.map_values(|x: DynamodbProject| x@);
    let n = items.len();
    let mut out: Vec<Project> = Vec::new();
    let mut remaining = items;
    let mut k: usize = 0;
    proof {
        assert(iv.take(0) =~= Seq::<DynamodbProjectView>::empty());
        assert(projects_view(out@) =~= Seq::<ProjectView>::empty());
    }
    while remaining.len() > 0
        invariant
            k + remaining.len() == n,
            n == orig.len(),
            orig == items@,
            iv == orig.map_values(|x: DynamodbProject| x@),
            remaining@ == orig.subrange(k as int, n as int),
            forall|i: int| 0 <= i < orig.len() ==> project_item_readable(#[trigger] orig[i]@),
            projects_from_item_views(iv.take(k as int)) == Ok::<Seq<ProjectView>, Error>(projects_view(out@)),
        decreases remaining.len(),
    {
        let x = remaining.remove(0);
        proof {
            assert(x == orig[k as int]);
            assert(remaining@ =~= orig.subrange(k + 1, n as int));
            assert(iv.take(k + 1).drop_last() =~= iv.take(k as int));
            assert(iv.take(k + 1).last() == x@);
        }
        match x.try_into() {
            Ok(q) => {
                let ghost before_out = out@;
                out.push(q);
                proof {
                    assert(projects_view(out@) =~= projects_view(before_out).push(q@));
                }
            },
            Err(e) => {
                proof {
                    assert(project_from_item(x@) == Err::<ProjectView, Error>(e));
                    assert(projects_from_item_views(iv.take(k + 1)) == Err::<Seq<ProjectView>, Error>(e));
                    lemma_projects_error_prefix(iv, (k + 1) as int, e);
                    assert(iv == orig.map_values(|x: DynamodbProject| x@));
                }
                return Err(e);
            },
        }
        k = k + 1;
    }
    proof {
        assert(iv.take(n as int) =~= iv);
    }
    Ok(out)
}

/// Once a prefix of the items reads with an error, every longer prefix does too.
proof fn lemma_projects_error_prefix(items: Seq<DynamodbProjectView>, k: int, e: Error)
    requires
        0 <= k <= items.len(),
        projects_from_item_views(items.take(k)) == Err::<Seq<ProjectView>, Error>(e),
    ensures
        projects_from_item_views(items) == Err::<Seq<ProjectView>, Error>(e),
    decreases items.len() - k,
{
    if k < items.len() {
        assert(items.take(k + 1).drop_last() =~= items.take(k));
        lemma_projects_error_prefix(items, k + 1, e);
    } else {
        assert(items.take(k) =~= items);
    }
}


/// The indexes of the projects table.
#[derive(Debug, Clone, Copy, PartialEq, Eq, Structural)]
pub enum TableIndex {
    LSI1CreationTimestamp,
    LSI2ProjectName,
}

impl TableIndex {
    pub open spec fn name(self) -> Seq<char> {
        match self {
            TableIndex::LSI1CreationTimestamp => "LSI1_CreationTimestamp"@,
            TableIndex::LSI2ProjectName => "LSI2_ProjectName"@,
        }
    }

    pub fn to_string(&self) -> (s: String)
        ensures
            s@ == self.name(),
    {
        match self {
            TableIndex::LSI1CreationTimestamp => String::from_str("LSI1_CreationTimestamp"),
            TableIndex::LSI2ProjectName => String::from_str("LSI2_ProjectName"),
        }
    }
}

/// The parameters of a projects query.
#[derive(Debug, Clone, PartialEq, Eq)]
pub struct ProjectsQuery {
    pub customer_id: String,
    pub from: Option<String>,
    pub to: Option<String>,
    pub name: Option<String>,
    pub cursor: Option<String>,
    pub limit: i32,
}

/// The query the projects repository sends: by name prefix when a name is given,
/// otherwise by creation time between `from` (default: the Unix epoch) and `to`
/// (default: `now`). Pages come newest first.
pub fn projects_query_plan(q: ProjectsQuery, now: String) -> (plan: QueryPlan)
    ensures
        plan.limit == q.limit,
        plan@.cursor == opt_string_view(q.cursor),
        plan.scan_index_forward == Some(false),
        match q.name {
            Some(n) => {
                &&& plan@.index_name == TableIndex::LSI2ProjectName.name()
                &&& plan@.key_condition_expression
                    == "pk = :customer_id AND begins_with(lsi2_sk, :name)"@
                &&& plan@.expression_attribute_values == seq![
                    (":customer_id"@, PlanValueView::S(q.customer_id@)),
                    (":name"@, PlanValueView::S(n@)),
                ]
            },
            None => {
                &&& plan@.index_name == TableIndex::LSI1CreationTimestamp.name()
                &&& plan@.key_condition_expression
                    == "pk = :customer_id AND lsi1_sk BETWEEN :lower_bound AND :upper_bound"@
                &&& plan@.expression_attribute_values == seq![
                    (":customer_id"@, PlanValueView::S(q.customer_id@)),
                    (":lower_bound"@, PlanValueView::S(opt_or(q.from, unix_epoch_rfc3339()))),
                    (":upper_bound"@, PlanValueView::S(opt_or(q.to, now@))),
                ]
            },
        },
{
    let ProjectsQuery { customer_id, from, to, name, cursor, limit } = q;
    let (index_name, key_condition_expression, expression_attribute_values) = match name {
        Some(n) => (
            TableIndex::LSI2ProjectName.to_string(),
            String::from_str("pk = :customer_id AND begins_with(lsi2_sk, :name)"),
            two_values(s_value(":customer_id", customer_id), s_value(":name", n)),
        ),
        None => {
            let lower = match from {
                Some(f) => f,
                None => unix_epoch(),
            };
            let upper = match to {
                Some(t) => t,
                None => now,
            };
            (
                TableIndex::LSI1CreationTimestamp.to_string(),
                String::from_str(
                    "pk = :customer_id AND lsi1_sk BETWEEN :lower_bound AND :upper_bound",
                ),
                three_values(
                    s_value(":customer_id", customer_id),
                    s_value(":lower_bound", lower),
                    s_value(":upper_bound", upper),
                ),
            )
        },
    };
    QueryPlan {
        index_name,
        key_condition_expression,
        expression_attribute_values,
        limit,
        cursor,
        scan_index_forward: Some(false),
    }
}

/// The delete of a project, refused by DynamoDB while the project is locked.
pub fn project_delete_plan(customer_id: String, project_id: String) -> (plan: DeletePlan)
    ensures
        plan.pk == customer_id,
        plan.sk == project_id,
        plan.condition_expression@ == "is_locked <> :is_locked"@,
        values_view(plan.expression_attribute_values@) == seq![
            (":is_locked"@, PlanValueView::Bool(true)),
        ],
{
    DeletePlan {
        pk: customer_id,
        sk: project_id,
        condition_expression: String::from_str("is_locked <> :is_locked"),
        expression_attribute_values: one_value(
            (String::from_str(":is_locked"), PlanValue::Bool(true)),
        ),
    }
}

/// The error of a refused project delete: a failed condition means the project is locked.
pub fn project_delete_error(failure: DeleteFailure) -> (e: Error)
    ensures
        e == (match failure {
            DeleteFailure::ConditionalCheckFailed => Error::DeleteLockedProject,
            _ => Error::UnknownError,
        }),
{
    match failure {
        DeleteFailure::ConditionalCheckFailed => Error::DeleteLockedProject,
        _ => Error::UnknownError,
    }
}


/// Reads every item of a page where that does not panic: `None` where some item is
/// unreadable, else what `projects_from_items` gives.
pub fn checked_projects_from_items(items: Vec<DynamodbProject>) -> (r: Option<Result<Vec<Project>, Error>>)
    ensures
        r is Some <==> forall|i: int| 0 <= i < items.len() ==> project_item_readable(#[trigger] items@[i]@),
        match r {
            Some(Ok(v)) => projects_from_item_views(items@.map_values(|x: DynamodbProject| x@)) == Ok::<Seq<ProjectView>, Error>(projects_view(v@)),
            Some(Err(e)) => projects_from_item_views(items@.map_values(|x: DynamodbProject| x@)) == Err::<Seq<ProjectView>, Error>(e),
            None => true,
        },
{
    let mut i: usize = 0;
    while i < items.len()
        invariant
            i <= items.len(),
            forall|k: int| 0 <= k < i ==> project_item_readable(#[trigger] items@[k]@),
        decreases items.len() - i,
    {
        if !items[i].readable() {
            return None;
        }
        i = i + 1;
    }
    Some(projects_from_items(items))
}

} // verus!
