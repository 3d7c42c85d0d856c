//! The requests that callers put into the engine's mailbox.

use crate::actor::MessageStop;
use crate::ident::IndexId;
use vstd::prelude::*;

verus! {

/// What a caller asks for when it wants an index created.
#[derive(Debug, PartialEq, Eq)]
pub struct IndexDefinition {
    /// Identity of the index.
    pub id: IndexId,
    /// Column that holds the primary key.
    pub col_id: String,
    /// Column that holds the embedding vector.
    pub col_emb: String,
    /// Number of dimensions of the vectors.
    pub dimensions: usize,
    /// Largest degree of a node in the proximity graph.
    pub connectivity: usize,
    /// Breadth of exploration while the graph is built.
    pub expansion_add: usize,
    /// Breadth of exploration while the graph is searched.
    pub expansion_search: usize,
}

/// An index definition as plain values.
pub struct DefinitionView {
    pub id: Seq<char>,
    pub col_id: Seq<char>,
    pub col_emb: Seq<char>,
    pub dimensions: usize,
    pub connectivity: usize,
    pub expansion_add: usize,
    pub expansion_search: usize,
}

impl View for IndexDefinition {
    type V = DefinitionView;

    open spec fn view(&self) -> DefinitionView {
        DefinitionView {
            id: self.id@,
            col_id: self.col_id@,
            col_emb: self.col_emb@,
            dimensions: self.dimensions,
            connectivity: self.connectivity,
            expansion_add: self.expansion_add,
            expansion_search: self.expansion_search,
        }
    }
}

impl Clone for IndexDefinition {
    fn clone(&self) -> (copy: IndexDefinition)
        ensures
            copy@ == self@,
    {
        IndexDefinition {
            id: self.id.clone(),
            col_id: self.col_id.clone(),
            col_emb: self.col_emb.clone(),
            dimensions: self.dimensions,
            connectivity: self.connectivity,
            expansion_add: self.expansion_add,
            expansion_search: self.expansion_search,
        }
    }
}

/// A message in the engine's mailbox.
#[derive(Debug, PartialEq, Eq)]
pub enum Request {
    /// Asks for the identities of all registered indexes.
    GetIndexes,
    /// Asks for an index to be created. No reply is sent.
    AddIndex(IndexDefinition),
    /// Asks for an index to be deleted. No reply is sent.
    DelIndex(IndexId),
    /// Asks for the handle of one index.
    GetIndex(IndexId),
    /// Asks the engine to shut down once its mailbox is drained.
    Stop,
}

/// A request as plain values.
pub enum RequestView {
    GetIndexes,
    AddIndex(DefinitionView),
    DelIndex(Seq<char>),
    GetIndex(Seq<char>),
    Stop,
}

impl View for Request {
    type V = RequestView;

    open spec fn view(&self) -> RequestView {
        match self {
            Request::GetIndexes => RequestView::GetIndexes,
            Request::AddIndex(definition) => RequestView::AddIndex(definition@),
            Request::DelIndex(id) => RequestView::DelIndex(id@),
            Request::GetIndex(id) => RequestView::GetIndex(id@),
            Request::Stop => RequestView::Stop,
        }
    }
}

impl Request {
    /// The request to create the index `id` over the columns `col_id` and
    /// `col_emb`, with the given parameters of the vector index.
    pub fn add_index(
        id: IndexId,
        col_id: String,
        col_emb: String,
        dimensions: usize,
        connectivity: usize,
        expansion_add: usize,
        expansion_search: usize,
    ) -> (request: Request)
        ensures
            request@ == RequestView::AddIndex(
                DefinitionView {
                    id: id@,
                    col_id: col_id@,
                    col_emb: col_emb@,
                    dimensions,
                    connectivity,
                    expansion_add,
                    expansion_search,
                },
            ),
    {
        Request::AddIndex(
            IndexDefinition {
                id,
                col_id,
                col_emb,
                dimensions,
                connectivity,
                expansion_add,
                expansion_search,
            },
        )
    }
}

impl MessageStop for Request {
    /// The engine's request to stop is `Request::Stop`.
    fn message_stop() -> (message: Request)
        ensures
            message@ == RequestView::Stop,
    {
        Request::Stop
    }
}

} // verus!
