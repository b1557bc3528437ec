use rsnapp::articles::models::{Article, NewArticle};
use rsnapp::articles::services::{all_articles, article_to_insert, insert_article_reply};
use rsnapp::{ApiError, ObjectId};

fn article(last: u8, name: &str) -> Article {
    let mut bytes = [0x11u8; 12];
    bytes[11] = last;
    Article { _id: ObjectId::with_bytes(bytes), name: name.to_string() }
}

#[test]
fn article_id_is_shown_as_hex() {
    let a = article(0xa5, "Rust");
    assert_eq!(a._id(), "1111111111111111111111a5");
    assert_eq!(a.name(), "Rust");
}

#[test]
fn all_articles_returns_every_fetched_article_in_order() {
    let fetched = vec![article(1, "first"), article(2, "second"), article(3, "third")];
    let got = all_articles(fetched).ok().expect("articles");
    let names: Vec<&str> = got.iter().map(|a| a.name()).collect();
    assert_eq!(names, vec!["first", "second", "third"]);
    assert_eq!(got[1]._id(), "111111111111111111111102");
}

#[test]
fn all_articles_without_documents_is_an_article_error() {
    match all_articles(Vec::new()) {
        Err(e) => {
            assert!(matches!(e, ApiError::NoArticles));
            assert_eq!(e.message(), "articleError");
            assert_eq!(e.details().as_deref(), Some("No documents"));
        }
        Ok(_) => panic!("expected an error"),
    }
}

#[test]
fn inserted_article_takes_the_mutation_name() {
    let doc = article_to_insert(NewArticle { name: "from input".to_string() }, "from argument".to_string());
    assert_eq!(doc.name, "from argument");
}

#[test]
fn set_name_replaces_the_name() {
    let mut n = NewArticle { name: "old".to_string() };
    n.set_name("new".to_string());
    assert_eq!(n.name, "new");
}

#[test]
fn insert_reply_shows_the_new_id() {
    let id = ObjectId::with_string("0123456789abcdefABCDEF01").unwrap();
    assert_eq!(insert_article_reply(Some(id)).ok(), Some("0123456789abcdefabcdef01".to_string()));
}

#[test]
fn refused_insert_fails() {
    let e = insert_article_reply(None).err().expect("error");
    assert!(matches!(e, ApiError::ArticleInsertFailed));
    assert_eq!(e.message(), "Failed.");
}
