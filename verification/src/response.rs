//! What is read from the provider's reply.

use crate::params::Pair;
use vstd::hash_map::StringHashMap;
use vstd::prelude::*;

verus! {

/// A decoded reply as mathematical text: the photo's identifier and the
/// address of each variant, by the variant's name.
pub struct ProviderResponse {
    pub id: Seq<char>,
    pub urls: Map<Seq<char>, Seq<char>>,
}

/// The mapping that a list of `(variant, address)` entries stands for. Of two
/// entries with one name the later one counts.
pub open spec fn urls_of(entries: Seq<Pair>) -> Map<Seq<char>, Seq<char>>
    decreases entries.len(),
{
    if entries.len() == 0 {
        Map::empty()
    } else {
        urls_of(entries.drop_last()).insert(entries.last().0, entries.last().1)
    }
}

/// The decoded reply of the provider to the request for a random photo.
pub struct ReturnDictionary {
    id: String,
    urls: StringHashMap<String>,
}

impl View for ReturnDictionary {
    type V = ProviderResponse;

    closed spec fn view(&self) -> ProviderResponse {
        ProviderResponse {
            id: self.id@,
            urls: Map::new(
                |name: Seq<char>| self.urls@.contains_key(name),
                |name: Seq<char>| self.urls@[name]@,
            ),
        }
    }
}

impl ReturnDictionary {
    /// The reply with the identifier `id` and the variants listed in `urls`.
    pub fn new(id: String, urls: Vec<(String, String)>) -> (response: Self)
        ensures
            response@ == (ProviderResponse { id: id@, urls: urls_of(urls.deep_view()) }),
    {
        let mut map: StringHashMap<String> = StringHashMap::new();
        let mut done: usize = 0;
        while done < urls.len()
            invariant
                done <= urls.len(),
                Map::new(
                    |name: Seq<char>| map@.contains_key(name),
                    |name: Seq<char>| map@[name]@,
                ) == urls_of(urls.deep_view().take(done as int)),
            decreases urls.len() - done,
        {
            let name = urls[done].0.clone();
            let address = urls[done].1.clone();
            proof {
                let before = urls.deep_view().take(done as int);
                let now = urls.deep_view().take(done + 1);
                assert(now.drop_last() =~= before);
                assert(now.last() == (name@, address@));
            }
            map.insert(name, address);
            done = done + 1;
        }
        assert(urls.deep_view().take(done as int) =~= urls.deep_view());
        ReturnDictionary { id, urls: map }
    }

    /// The photo's identifier.
    pub fn id(&self) -> (id: &String)
        ensures
            id@ == self@.id,
    {
        &self.id
    }

    /// The address of the `raw` variant, if the reply has one.
    pub fn raw_url(&self) -> (url: Option<&String>)
        ensures
            match url {
                Some(address) => self@.urls.contains_key("raw"@) && address@ == self@.urls["raw"@],
                None => !self@.urls.contains_key("raw"@),
            },
    {
        self.urls.get("raw")
    }
}

} // verus!
