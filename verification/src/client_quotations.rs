//! Quotations of the client API, stored under a `client_id#project_id` key.

use vstd::prelude::*;
use crate::text::{join2, lemma_split_join, lemma_split_no_sep, split, split_exec};

verus! {

/// A quotation of the client API: identified by client and project.
#[derive(Debug, Clone, PartialEq, Eq)]
pub struct ClientQuotation {
    pub id: String,
    pub client_id: String,
    pub project_id: String,
    pub created_at: String,
    pub updated_at: String,
}

/// The same quotation as stored: `client_id#project_id` is its partition key.
#[derive(Debug, Clone, PartialEq, Eq)]
pub struct DynamodbQuotationItem {
    pub id: String,
    pub client_id_and_project_id: String,
    pub created_at: String,
    pub updated_at: String,
}

/// `client_id#project_id`.
pub open spec fn client_project_key(client_id: Seq<char>, project_id: Seq<char>) -> Seq<char> {
    join2(client_id, '#', project_id)
}

impl DynamodbQuotationItem {
    pub fn from(quotation: ClientQuotation) -> (item: DynamodbQuotationItem)
        ensures
            item.id == quotation.id,
            item.client_id_and_project_id@ == client_project_key(
                quotation.client_id@,
                quotation.project_id@,
            ),
            item.created_at == quotation.created_at,
            item.updated_at == quotation.updated_at,
    {
        let key = client_project_key_exec(quotation.client_id, quotation.project_id.as_str());
        DynamodbQuotationItem {
            id: quotation.id,
            client_id_and_project_id: key,
            created_at: quotation.created_at,
            updated_at: quotation.updated_at,
        }
    }

    /// Reads the item; the key must hold exactly one `#`.
    pub fn into(self) -> (q: ClientQuotation)
        requires
            split(self.client_id_and_project_id@, '#').len() == 2,
        ensures
            q.id == self.id,
            q.client_id@ == split(self.client_id_and_project_id@, '#')[0],
            q.project_id@ == split(self.client_id_and_project_id@, '#')[1],
            q.created_at == self.created_at,
            q.updated_at == self.updated_at,
    {
        let parts = split_exec(self.client_id_and_project_id.as_str(), '#');
        let client_id = parts[0].clone();
        let project_id = parts[1].clone();
        ClientQuotation {
            id: self.id,
            client_id,
            project_id,
            created_at: self.created_at,
            updated_at: self.updated_at,
        }
    }
}

/// `client_id#project_id`.
pub fn client_project_key_exec(client_id: String, project_id: &str) -> (key: String)
    ensures
        key@ == client_project_key(client_id@, project_id@),
{
    proof {
        reveal_strlit("#");
    }
    client_id.concat("#").concat(project_id)
}

/// Storing a client quotation and reading it back gives its ids again, when neither
/// holds a `#`.
pub proof fn lemma_client_quotation_round_trip(client_id: Seq<char>, project_id: Seq<char>)
    requires
        !client_id.contains('#'),
        !project_id.contains('#'),
    ensures
        split(client_project_key(client_id, project_id), '#') == seq![client_id, project_id],
{
    lemma_split_join(client_id, '#', project_id);
    lemma_split_no_sep(client_id, '#');
    lemma_split_no_sep(project_id, '#');
    assert(seq![client_id] + seq![project_id] =~= seq![client_id, project_id]);
}

} // verus!
