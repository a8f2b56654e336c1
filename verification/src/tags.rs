//! Tags: a read-through listing of every tag attached to any article.

use vstd::prelude::*;

use crate::app_error::AppError;
use crate::store::{ArticleRecord, Store};

verus! {

/// The body wrapper around the tag listing.
#[derive(Debug)]
pub struct TagsBody {
    pub tags: Vec<String>,
}

/// The tags of every article, in store order.
pub open spec fn all_tags(articles: Seq<ArticleRecord>) -> Seq<String>
    decreases articles.len(),
{
    if articles.len() == 0 {
        Seq::empty()
    } else {
        all_tags(articles.drop_last()) + articles.last().tags@
    }
}

pub struct TagsService;

impl TagsService {
    /// Returns the tags of every article, in store order.
    pub fn get_tags(store: &Store) -> (r: Result<TagsBody, AppError>)
        ensures
            r matches Ok(body) && body.tags@ == all_tags(store.articles@),
    {
        let mut tags: Vec<String> = Vec::new();
        let mut i: usize = 0;
        while i < store.articles.len()
            invariant
                i <= store.articles@.len(),
                tags@ == all_tags(store.articles@.subrange(0, i as int)),
            decreases store.articles@.len() - i,
        {
            let ghost pre = store.articles@.subrange(0, i as int);
            let n = store.articles[i].tags.len();
            let mut k: usize = 0;
            while k < n
                invariant
                    i < store.articles@.len(),
                    n == store.articles@[i as int].tags@.len(),
                    k <= n,
                    pre == store.articles@.subrange(0, i as int),
                    tags@ =~= all_tags(pre) + store.articles@[i as int].tags@.subrange(
                        0,
                        k as int,
                    ),
                decreases n - k,
            {
                tags.push(store.articles[i].tags[k].clone());
                k = k + 1;
            }
            proof {
                let cur = store.articles@.subrange(0, i + 1 as int);
                assert(cur.drop_last() =~= pre);
                assert(cur.last() == store.articles@[i as int]);
                assert(all_tags(cur) == all_tags(pre) + store.articles@[i as int].tags@);
                assert(store.articles@[i as int].tags@.subrange(
                    0,
                    store.articles@[i as int].tags@.len() as int,
                ) =~= store.articles@[i as int].tags@);
                assert(tags@ =~= all_tags(cur));
            }
            i = i + 1;
        }
        proof {
            assert(store.articles@.subrange(0, store.articles@.len() as int) =~= store.articles@);
        }
        Ok(TagsBody { tags })
    }
}

} // verus!
