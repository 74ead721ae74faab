use vstd::prelude::*;
use crate::text::{decimal_digits, decimal_text, same_text};

verus! {

/// The kind of wallpaper a session looks for.
#[derive(Debug, Clone, Copy, PartialEq, Eq, Structural)]
pub enum Category {
    Anime,
    /// Anime art from a second source, which hands out one random image per
    /// request and has no pages.
    OtherAnime,
    AnimeNsfw,
    Other,
}

/// The category that a command-line name selects; unknown names select `Other`.
pub open spec fn category_named(name: Seq<char>) -> Category {
    if name == "anime"@ || name == "a"@ {
        Category::Anime
    } else if name == "other"@ || name == "o"@ {
        Category::Other
    } else if name == "oa"@ {
        Category::OtherAnime
    } else if name == "n"@ || name == "nsfw"@ {
        Category::AnimeNsfw
    } else {
        Category::Other
    }
}

pub open spec fn category_bits(c: Category) -> Seq<char> {
    match c {
        Category::Anime => "010"@,
        Category::Other => "100"@,
        Category::AnimeNsfw => "010"@,
        Category::OtherAnime => "000"@,
    }
}

pub open spec fn purity_bits(c: Category) -> Seq<char> {
    match c {
        Category::AnimeNsfw => "011"@,
        _ => "100"@,
    }
}

pub open spec fn search_url_of(c: Category, query: Seq<char>, page: nat, api_key: Seq<char>) -> Seq<char> {
    "https://wallhaven.cc/api/v1/search?sorting=random&resolutions=1920x1080&categories="@
        + category_bits(c) + "&purity="@ + purity_bits(c) + "&q="@ + query + "&page="@
        + decimal_digits(page) + "&apikey="@ + api_key
}

impl Category {
    /// The category selected by a command-line name.
    pub fn from_name(name: &str) -> (r: Category)
        ensures
            r == category_named(name@),
    {
        if same_text(name, "anime") || same_text(name, "a") {
            Category::Anime
        } else if same_text(name, "other") || same_text(name, "o") {
            Category::Other
        } else if same_text(name, "oa") {
            Category::OtherAnime
        } else if same_text(name, "n") || same_text(name, "nsfw") {
            Category::AnimeNsfw
        } else {
            Category::Other
        }
    }

    /// The three-character category flags of a search.
    pub fn category_flags(&self) -> (r: &'static str)
        ensures
            r@ == category_bits(*self),
    {
        match self {
            Category::Anime => "010",
            Category::Other => "100",
            Category::AnimeNsfw => "010",
            Category::OtherAnime => "000",
        }
    }

    /// The three-character purity flags of a search.
    pub fn purity_flags(&self) -> (r: &'static str)
        ensures
            r@ == purity_bits(*self),
    {
        match self {
            Category::AnimeNsfw => "011",
            _ => "100",
        }
    }

    /// The name under which the category is announced.
    pub fn label(&self) -> (r: &'static str)
        ensures
            r@ == match *self {
                Category::Anime => "Anime"@,
                Category::Other => "Other"@,
                Category::OtherAnime => "Anime (2nd api)"@,
                Category::AnimeNsfw => "Anime (nsfw)"@,
            },
    {
        match self {
            Category::Anime => "Anime",
            Category::Other => "Other",
            Category::OtherAnime => "Anime (2nd api)",
            Category::AnimeNsfw => "Anime (nsfw)",
        }
    }

    /// The directory, under the wallpaper root, that keeps this category's files.
    pub fn directory(&self) -> (r: &'static str)
        ensures
            r@ == match *self {
                Category::Anime => "anime"@,
                Category::Other => "other"@,
                Category::OtherAnime => "anime_art"@,
                Category::AnimeNsfw => "nsfw"@,
            },
    {
        match self {
            Category::Anime => "anime",
            Category::Other => "other",
            Category::OtherAnime => "anime_art",
            Category::AnimeNsfw => "nsfw",
        }
    }

    /// The endpoint of the source without pages, for the category that uses it.
    pub fn fixed_endpoint(&self) -> (r: Option<&'static str>)
        ensures
            match *self {
                Category::OtherAnime => r is Some && r->0@ == "https://pic.re/image?compress=false"@,
                _ => r is None,
            },
    {
        match self {
            Category::OtherAnime => Some("https://pic.re/image?compress=false"),
            _ => None,
        }
    }

    /// The address of one page of a random search in this category.
    pub fn search_url(&self, query: &str, page: u64, api_key: &str) -> (r: String)
        ensures
            r@ == search_url_of(*self, query@, page as nat, api_key@),
    {
        let mut url = String::from_str(
            "https://wallhaven.cc/api/v1/search?sorting=random&resolutions=1920x1080&categories=",
        );
        url.append(self.category_flags());
        url.append("&purity=");
        url.append(self.purity_flags());
        url.append("&q=");
        url.append(query);
        url.append("&page=");
        let digits = decimal_text(page);
        url.append(&digits);
        url.append("&apikey=");
        url.append(api_key);
        url
    }
}

} // verus!
