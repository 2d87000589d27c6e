//! The snippet record: the sole entity the manager stores.

use vstd::prelude::*;

use crate::model::RowModel;

verus! {

/// The mathematical value of a [`Snippet`]: the id widened to `int` and the
/// text fields seen as character sequences.
pub struct SnippetView {
    pub id: Option<int>,
    pub title: Seq<char>,
    pub code: Seq<char>,
    pub language: Seq<char>,
    pub tags: Seq<char>,
    pub is_favorite: bool,
    pub created_at: Seq<char>,
    pub updated_at: Seq<char>,
}

/// A stored code fragment.  `id` is absent before the first persistence and
/// assigned by the store on insert; `tags` is a single delimited string whose
/// formatting convention belongs to the caller; the timestamps are ISO-8601
/// strings.
#[derive(Debug, Clone)]
pub struct Snippet {
    pub id: Option<i32>,
    pub title: String,
    pub code: String,
    pub language: String,
    pub tags: String,
    pub is_favorite: bool,
    pub created_at: String,
    pub updated_at: String,
}

impl View for Snippet {
    type V = SnippetView;

    open spec fn view(&self) -> SnippetView {
        SnippetView {
            id: match self.id {
                Some(i) => Some(i as int),
                None => None,
            },
            title: self.title@,
            code: self.code@,
            language: self.language@,
            tags: self.tags@,
            is_favorite: self.is_favorite,
            created_at: self.created_at@,
            updated_at: self.updated_at@,
        }
    }
}

/// The snippet record a stored row reads back as.
pub open spec fn snippet_of_row(r: RowModel) -> SnippetView {
    SnippetView {
        id: Some(r.id),
        title: r.title,
        code: r.code,
        language: r.language,
        tags: r.tags,
        is_favorite: r.is_favorite,
        created_at: r.created_at,
        updated_at: r.updated_at,
    }
}

} // verus!
