use vstd::prelude::*;

use crate::ids::Timestamp;
use crate::user::ProfileInfo;

verus! {

/// The envelope of a single article.
pub struct ArticleBody<T> {
    pub article: T,
}

#[derive(Clone, Debug, PartialEq)]
pub struct TagsBody {
    pub tags: Vec<String>,
}

#[derive(Clone, Debug, PartialEq)]
pub struct CreateArticle {
    pub title: String,
    pub description: String,
    pub body: String,
    pub tag_list: Vec<String>,
}

/// A partial update: absent fields are left as they are.
#[derive(Clone, Debug, PartialEq)]
pub struct UpdateArticle {
    pub title: Option<String>,
    pub description: Option<String>,
    pub body: Option<String>,
    pub tag_list: Option<Vec<String>>,
}

#[derive(Clone, Debug)]
pub struct Article {
    pub slug: String,
    pub title: String,
    pub description: String,
    pub body: String,
    pub tag_list: Vec<String>,
    pub author: ProfileInfo,
    pub created_at: Timestamp,
    pub updated_at: Timestamp,
}

/// An article as the store returns it, with its author's profile flattened.
pub struct ArticleFromQuery {
    pub slug: String,
    pub title: String,
    pub description: String,
    pub body: String,
    pub tag_list: Vec<String>,
    pub created_at: Timestamp,
    pub updated_at: Timestamp,
    pub favorited: bool,
    pub favorites_count: i64,
    pub author_username: String,
    pub author_bio: String,
    pub author_image: Option<String>,
    pub following_author: bool,
}

impl ArticleFromQuery {
    /// The article with its author gathered into a profile; favourite and
    /// following flags are not part of it.
    pub fn into_article(self) -> (r: Article)
        ensures
            r.slug == self.slug,
            r.title == self.title,
            r.description == self.description,
            r.body == self.body,
            r.tag_list == self.tag_list,
            r.created_at == self.created_at,
            r.updated_at == self.updated_at,
            r.author.username == self.author_username,
            r.author.bio == self.author_bio,
            r.author.image == self.author_image,
    {
        Article {
            slug: self.slug,
            title: self.title,
            description: self.description,
            body: self.body,
            tag_list: self.tag_list,
            created_at: self.created_at,
            updated_at: self.updated_at,
            author: ProfileInfo {
                username: self.author_username,
                bio: self.author_bio,
                image: self.author_image,
            },
        }
    }
}

/// Filters and window of an article listing.
#[derive(Clone, Debug, PartialEq)]
pub struct ListArticlesQuery {
    pub tag: Option<String>,
    pub author: Option<String>,
    pub favorited: Option<String>,
    pub limit: Option<i64>,
    pub offset: Option<i64>,
}

/// Window of a feed listing.
#[derive(Clone, Debug, PartialEq)]
pub struct FeedArticlesQuery {
    pub limit: Option<i64>,
    pub offset: Option<i64>,
}

#[derive(Clone, Debug)]
pub struct MultipleArticlesBody {
    pub articles: Vec<Article>,
    pub articles_count: usize,
}

#[derive(Clone, Debug)]
pub struct TagListInfo {
    pub tags: Vec<String>,
}

} // verus!
