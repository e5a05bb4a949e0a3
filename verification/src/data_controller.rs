//! The application's persisted preferences and saved favorites, as values:
//! reading and writing the small configuration files is the surrounding
//! binary's business, the rules about their contents live here.

use vstd::prelude::*;

use crate::text::str_eq;

verus! {

/// The application's persisted preferences.
#[derive(Debug)]
pub struct Settings {
    pub version: String,
    pub browser: String,
    pub web_search: String,
}

/// Fresh default settings for a given application version.
pub fn default_settings(version: &str) -> (s: Settings)
    ensures
        s.version@ == version@,
        s.browser@ == "Default"@,
        s.web_search@ == "DuckDuckGo"@,
{
    Settings {
        version: version.to_owned(),
        browser: "Default".to_owned(),
        web_search: "DuckDuckGo".to_owned(),
    }
}

/// Fill at most one empty settings field, in fixed priority order: an empty
/// version takes the current application version; otherwise an empty browser
/// takes the default browser; otherwise an empty search engine takes the
/// default engine; otherwise the settings come back unchanged.
pub fn null_search_settings(settings: Settings, current_version: &str) -> (r: Settings)
    ensures
        settings.version@.len() == 0 ==> r.version@ == current_version@ && r.browser@
            == settings.browser@ && r.web_search@ == settings.web_search@,
        settings.version@.len() > 0 && settings.browser@.len() == 0 ==> r.version@
            == settings.version@ && r.browser@ == "Default"@ && r.web_search@
            == settings.web_search@,
        settings.version@.len() > 0 && settings.browser@.len() > 0 && settings.web_search@.len()
            == 0 ==> r.version@ == settings.version@ && r.browser@ == settings.browser@
            && r.web_search@ == "DuckDuckGo"@,
        settings.version@.len() > 0 && settings.browser@.len() > 0 && settings.web_search@.len()
            > 0 ==> r.version@ == settings.version@ && r.browser@ == settings.browser@
            && r.web_search@ == settings.web_search@,
{
    if settings.version.as_str().is_empty() {
        Settings {
            version: current_version.to_owned(),
            browser: settings.browser,
            web_search: settings.web_search,
        }
    } else if settings.browser.as_str().is_empty() {
        Settings {
            version: settings.version,
            browser: "Default".to_owned(),
            web_search: settings.web_search,
        }
    } else if settings.web_search.as_str().is_empty() {
        Settings {
            version: settings.version,
            browser: settings.browser,
            web_search: "DuckDuckGo".to_owned(),
        }
    } else {
        settings
    }
}

/// No two pairs carry the same name.
pub open spec fn unique_keys(pairs: Seq<(String, String)>) -> bool {
    forall|i: int, j: int|
        0 <= i < j < pairs.len() ==> (#[trigger] pairs[i]).0@ != (#[trigger] pairs[j]).0@
}

/// The map a sequence of (name, location) pairs represents.
pub open spec fn pairs_map(pairs: Seq<(String, String)>) -> Map<Seq<char>, Seq<char>>
    decreases pairs.len(),
{
    if pairs.len() == 0 {
        Map::empty()
    } else {
        pairs_map(pairs.drop_last()).insert(pairs.last().0@, pairs.last().1@)
    }
}

/// A name stands in the map exactly when some pair carries it.
proof fn lemma_pairs_map_domain(pairs: Seq<(String, String)>, k: Seq<char>)
    ensures
        pairs_map(pairs).contains_key(k) <==> exists|i: int|
            0 <= i < pairs.len() && (#[trigger] pairs[i]).0@ == k,
    decreases pairs.len(),
{
    if pairs.len() > 0 {
        let pre = pairs.drop_last();
        lemma_pairs_map_domain(pre, k);
        if pairs.last().0@ == k {
            assert(pairs[pairs.len() - 1].0@ == k);
        } else {
            if exists|i: int| 0 <= i < pairs.len() && (#[trigger] pairs[i]).0@ == k {
                let i = choose|i: int| 0 <= i < pairs.len() && (#[trigger] pairs[i]).0@ == k;
                assert(pre[i] == pairs[i]);
            }
            if exists|i: int| 0 <= i < pre.len() && (#[trigger] pre[i]).0@ == k {
                let i = choose|i: int| 0 <= i < pre.len() && (#[trigger] pre[i]).0@ == k;
                assert(pairs[i] == pre[i]);
            }
        }
    }
}

proof fn lemma_unique_keys_drop_last(pairs: Seq<(String, String)>)
    requires
        unique_keys(pairs),
        pairs.len() > 0,
    ensures
        unique_keys(pairs.drop_last()),
{
    let pre = pairs.drop_last();
    assert forall|i: int, j: int|
        0 <= i < j < pre.len() implies (#[trigger] pre[i]).0@ != (#[trigger] pre[j]).0@ by {
        assert(pre[i] == pairs[i]);
        assert(pre[j] == pairs[j]);
    }
}

/// With unique names, each pair's location is what the map holds for its name.
proof fn lemma_pairs_map_at(pairs: Seq<(String, String)>, i: int)
    requires
        unique_keys(pairs),
        0 <= i < pairs.len(),
    ensures
        pairs_map(pairs).contains_key(pairs[i].0@),
        pairs_map(pairs)[pairs[i].0@] == pairs[i].1@,
    decreases pairs.len(),
{
    let pre = pairs.drop_last();
    if i == pairs.len() - 1 {
    } else {
        lemma_unique_keys_drop_last(pairs);
        assert(pre[i] == pairs[i]);
        lemma_pairs_map_at(pre, i);
        assert(pairs[i].0@ != pairs[pairs.len() - 1].0@);
    }
}

/// Removing the pair that carries a name removes that name from the map.
proof fn lemma_pairs_map_remove(pairs: Seq<(String, String)>, i: int)
    requires
        unique_keys(pairs),
        0 <= i < pairs.len(),
    ensures
        unique_keys(pairs.remove(i)),
        pairs_map(pairs.remove(i)) == pairs_map(pairs).remove(pairs[i].0@),
{
    let k0 = pairs[i].0@;
    let rem = pairs.remove(i);
    assert forall|x: int, y: int|
        0 <= x < y < rem.len() implies (#[trigger] rem[x]).0@ != (#[trigger] rem[y]).0@ by {
        let x0: int = if x < i {
            x
        } else {
            x + 1
        };
        let y0: int = if y < i {
            y
        } else {
            y + 1
        };
        assert(rem[x] == pairs[x0]);
        assert(rem[y] == pairs[y0]);
    }
    assert forall|k: Seq<char>| #[trigger]
        pairs_map(rem).contains_key(k) implies pairs_map(pairs).remove(k0).contains_key(k)
        && pairs_map(rem)[k] == pairs_map(pairs).remove(k0)[k] by {
        lemma_pairs_map_domain(rem, k);
        let j = choose|j: int| 0 <= j < rem.len() && (#[trigger] rem[j]).0@ == k;
        let j0: int = if j < i {
            j
        } else {
            j + 1
        };
        assert(rem[j] == pairs[j0]);
        assert(k != k0);
        lemma_pairs_map_at(pairs, j0);
        lemma_pairs_map_at(rem, j);
    }
    assert forall|k: Seq<char>| #[trigger]
        pairs_map(pairs).remove(k0).contains_key(k) implies pairs_map(rem).contains_key(k) by {
        lemma_pairs_map_domain(pairs, k);
        let j = choose|j: int| 0 <= j < pairs.len() && (#[trigger] pairs[j]).0@ == k;
        assert(j != i);
        let j1: int = if j < i {
            j
        } else {
            j - 1
        };
        assert(rem[j1] == pairs[j]);
        lemma_pairs_map_domain(rem, k);
    }
    assert(pairs_map(rem) =~= pairs_map(pairs).remove(k0));
}

/// The user's saved favorites: names mapped to locations, each name held once.
pub struct Favorites {
    pub favorites: Vec<(String, String)>,
}

impl Favorites {
    /// Each saved name occurs exactly once.
    pub open spec fn wf(self) -> bool {
        unique_keys(self.favorites@)
    }

    /// The name-to-location map the favorites represent.
    pub open spec fn as_map(self) -> Map<Seq<char>, Seq<char>> {
        pairs_map(self.favorites@)
    }

    /// An empty favorites collection.
    pub fn new() -> (r: Favorites)
        ensures
            r.wf(),
            r.as_map() == Map::<Seq<char>, Seq<char>>::empty(),
    {
        Favorites { favorites: Vec::new() }
    }

    /// The position of the pair carrying `name`, if one does.
    fn position_of(&self, name: &str) -> (r: Option<usize>)
        ensures
            r matches Some(i) ==> i < self.favorites@.len() && self.favorites@[i as int].0@
                == name@,
            r is None ==> forall|i: int|
                0 <= i < self.favorites@.len() ==> (#[trigger] self.favorites@[i]).0@ != name@,
    {
        let mut i: usize = 0;
        while i < self.favorites.len()
            invariant
                0 <= i <= self.favorites@.len(),
                forall|k: int| 0 <= k < i ==> (#[trigger] self.favorites@[k]).0@ != name@,
            decreases self.favorites@.len() - i,
        {
            if str_eq(self.favorites[i].0.as_str(), name) {
                return Some(i);
            }
            i = i + 1;
        }
        None
    }

    /// The saved location for `name`, when one is saved.
    pub fn lookup(&self, name: &str) -> (r: Option<&String>)
        requires
            self.wf(),
        ensures
            r is Some <==> self.as_map().contains_key(name@),
            r matches Some(u) ==> u@ == self.as_map()[name@],
    {
        proof {
            lemma_pairs_map_domain(self.favorites@, name@);
        }
        match self.position_of(name) {
            Option::Some(i) => {
                proof {
                    lemma_pairs_map_at(self.favorites@, i as int);
                }
                Some(&self.favorites[i].1)
            },
            Option::None => None,
        }
    }

    /// Forget the location saved under `name`; reports whether one was saved.
    pub fn remove_favorite(&mut self, name: &str) -> (removed: bool)
        requires
            old(self).wf(),
        ensures
            final(self).wf(),
            removed == old(self).as_map().contains_key(name@),
            final(self).as_map() == old(self).as_map().remove(name@),
    {
        proof {
            lemma_pairs_map_domain(self.favorites@, name@);
        }
        match self.position_of(name) {
            Option::Some(i) => {
                proof {
                    lemma_pairs_map_remove(self.favorites@, i as int);
                }
                let _ = self.favorites.remove(i);
                true
            },
            Option::None => {
                proof {
                    assert(self.as_map() =~= self.as_map().remove(name@));
                }
                false
            },
        }
    }

    /// Save `url` under `name`, replacing what the name held before; reports
    /// whether the name was already taken.
    pub fn add_favorite(&mut self, name: &str, url: &str) -> (existed: bool)
        requires
            old(self).wf(),
        ensures
            final(self).wf(),
            existed == old(self).as_map().contains_key(name@),
            final(self).as_map() == old(self).as_map().insert(name@, url@),
    {
        let existed = self.remove_favorite(name);
        let ghost removed = self.favorites@;
        self.favorites.push((name.to_owned(), url.to_owned()));
        proof {
            assert(self.favorites@.drop_last() =~= removed);
            assert forall|x: int, y: int|
                0 <= x < y < self.favorites@.len() implies (#[trigger] self.favorites@[x]).0@
                != (#[trigger] self.favorites@[y]).0@ by {
                lemma_pairs_map_domain(removed, self.favorites@[y].0@);
                if y == self.favorites@.len() - 1 {
                    assert(removed[x] == self.favorites@[x]);
                }
            }
            assert(self.as_map() =~= old(self).as_map().insert(name@, url@));
        }
        existed
    }

    /// The saved names, in the order the pairs stand.
    pub fn favorite_names(&self) -> (names: Vec<String>)
        ensures
            names@.len() == self.favorites@.len(),
            forall|i: int|
                0 <= i < names@.len() ==> (#[trigger] names@[i])@ == self.favorites@[i].0@,
    {
        let mut names: Vec<String> = Vec::new();
        let mut i: usize = 0;
        while i < self.favorites.len()
            invariant
                0 <= i <= self.favorites@.len(),
                names@.len() == i,
                forall|k: int|
                    0 <= k < i ==> (#[trigger] names@[k])@ == self.favorites@[k].0@,
            decreases self.favorites@.len() - i,
        {
            names.push(self.favorites[i].0.clone());
            i = i + 1;
        }
        names
    }
}

} // verus!
