//! What the article queries and mutations answer, around the database calls.

use crate::articles::models::{Article, NewArticle};
use crate::error::ApiError;
use crate::object_id::{hex_lower, ObjectId};
use vstd::prelude::*;

verus! {

/// The answer to `allArticles`, given the articles that the collection
/// yielded, in the order it yielded them: all of them, or the `articleError`
/// error ("No documents") when there are none.
pub fn all_articles(fetched: Vec<Article>) -> (res: Result<Vec<Article>, ApiError>)
    ensures
        res is Ok <==> fetched@.len() > 0,
        res matches Ok(articles) ==> articles@ == fetched@,
        res matches Err(e) ==> e == ApiError::NoArticles,
{
    if fetched.len() > 0 {
        Ok(fetched)
    } else {
        Err(ApiError::NoArticles)
    }
}

/// The document that `insertArticle` stores: the input with its name
/// replaced by the mutation's `name` argument.
pub fn article_to_insert(new_article: NewArticle, name: String) -> (doc: NewArticle)
    ensures
        doc.name == name,
{
    let mut doc = new_article;
    doc.set_name(name);
    doc
}

/// The answer to `insertArticle`, given the id under which the database
/// stored the article, or `None` where it refused the insert: the id as
/// 24 lowercase hexadecimal digits, or the error "Failed.".
pub fn insert_article_reply(inserted: Option<ObjectId>) -> (res: Result<String, ApiError>)
    ensures
        res is Ok <==> inserted is Some,
        res matches Ok(id) ==> id@ == hex_lower(inserted->0@),
        res matches Err(e) ==> e == ApiError::ArticleInsertFailed,
{
    match inserted {
        Some(oid) => Ok(oid.to_hex()),
        None => Err(ApiError::ArticleInsertFailed),
    }
}

} // verus!
