//! Finding categories.
use vstd::prelude::*;

use crate::text;

verus! {

/// Security category a rule belongs to.
#[derive(Debug, Clone, Copy, PartialEq, Eq, PartialOrd, Ord, Hash, Structural)]
pub enum Category {
    /// Caller authorization (`require_auth`).
    Authorization,
    /// Authentication of identities.
    Authentication,
    /// Access control and privileged operations.
    AccessControl,
    /// Cross-contract calls.
    CrossContract,
    /// Token handling and transfers.
    Token,
    /// Persistent/temporary/instance storage usage.
    Storage,
    /// Arithmetic and numeric safety.
    Arithmetic,
    /// Error handling and panics.
    ErrorHandling,
    /// Event emission.
    Events,
    /// Resource usage, TTL, and fees.
    ResourceUsage,
    /// Contract configuration.
    Configuration,
    /// Dependency and supply-chain risk.
    Dependencies,
    /// Unsafe Rust constructs.
    Unsafe,
}

/// Stable kebab-case name of a category.
pub open spec fn category_name(c: Category) -> Seq<char> {
    match c {
        Category::Authorization => "authorization"@,
        Category::Authentication => "authentication"@,
        Category::AccessControl => "access-control"@,
        Category::CrossContract => "cross-contract"@,
        Category::Token => "token"@,
        Category::Storage => "storage"@,
        Category::Arithmetic => "arithmetic"@,
        Category::ErrorHandling => "error-handling"@,
        Category::Events => "events"@,
        Category::ResourceUsage => "resource-usage"@,
        Category::Configuration => "configuration"@,
        Category::Dependencies => "dependencies"@,
        Category::Unsafe => "unsafe"@,
    }
}

/// Declaration position of a category (the order `derive(Ord)` uses).
pub open spec fn category_index(c: Category) -> nat {
    match c {
        Category::Authorization => 0,
        Category::Authentication => 1,
        Category::AccessControl => 2,
        Category::CrossContract => 3,
        Category::Token => 4,
        Category::Storage => 5,
        Category::Arithmetic => 6,
        Category::ErrorHandling => 7,
        Category::Events => 8,
        Category::ResourceUsage => 9,
        Category::Configuration => 10,
        Category::Dependencies => 11,
        Category::Unsafe => 12,
    }
}

/// The category a normalized (trimmed, lowercased, `_` to `-`) name denotes.
pub open spec fn category_from_name(n: Seq<char>) -> Option<Category> {
    if n == "authorization"@ {
        Some(Category::Authorization)
    } else if n == "authentication"@ {
        Some(Category::Authentication)
    } else if n == "access-control"@ {
        Some(Category::AccessControl)
    } else if n == "cross-contract"@ {
        Some(Category::CrossContract)
    } else if n == "token"@ {
        Some(Category::Token)
    } else if n == "storage"@ {
        Some(Category::Storage)
    } else if n == "arithmetic"@ {
        Some(Category::Arithmetic)
    } else if n == "error-handling"@ {
        Some(Category::ErrorHandling)
    } else if n == "events"@ {
        Some(Category::Events)
    } else if n == "resource-usage"@ {
        Some(Category::ResourceUsage)
    } else if n == "configuration"@ {
        Some(Category::Configuration)
    } else if n == "dependencies"@ {
        Some(Category::Dependencies)
    } else if n == "unsafe"@ {
        Some(Category::Unsafe)
    } else {
        None
    }
}

/// The normalized form of a category name: trimmed, lowercased, `_` to `-`.
pub open spec fn category_key(s: Seq<char>) -> Seq<char> {
    text::replace_char(text::lower(text::trimmed(s)), '_', '-')
}

/// What parsing `s` as a category gives: the category, or the error message.
pub open spec fn category_parse_result(s: Seq<char>) -> Result<Category, Seq<char>> {
    let n = category_key(s);
    match category_from_name(n) {
        Some(v) => Ok(v),
        None => Err("unknown category: "@ + n),
    }
}

impl Category {
    /// Stable kebab-case name.
    pub fn as_str(self) -> (r: &'static str)
        ensures
            r@ == category_name(self),
    {
        match self {
            Category::Authorization => "authorization",
            Category::Authentication => "authentication",
            Category::AccessControl => "access-control",
            Category::CrossContract => "cross-contract",
            Category::Token => "token",
            Category::Storage => "storage",
            Category::Arithmetic => "arithmetic",
            Category::ErrorHandling => "error-handling",
            Category::Events => "events",
            Category::ResourceUsage => "resource-usage",
            Category::Configuration => "configuration",
            Category::Dependencies => "dependencies",
            Category::Unsafe => "unsafe",
        }
    }

    /// Declaration position (the order of `derive(Ord)`).
    pub fn index(self) -> (r: u8)
        ensures
            r == category_index(self),
    {
        match self {
            Category::Authorization => 0,
            Category::Authentication => 1,
            Category::AccessControl => 2,
            Category::CrossContract => 3,
            Category::Token => 4,
            Category::Storage => 5,
            Category::Arithmetic => 6,
            Category::ErrorHandling => 7,
            Category::Events => 8,
            Category::ResourceUsage => 9,
            Category::Configuration => 10,
            Category::Dependencies => 11,
            Category::Unsafe => 12,
        }
    }

    /// Parses a category name (kebab-case or snake_case, any case).
    pub fn parse_name(s: &str) -> (r: Result<Category, String>)
        ensures
            match r {
                Ok(v) => category_parse_result(s@) == Ok::<Category, Seq<char>>(v),
                Err(e) => category_parse_result(s@) == Err::<Category, Seq<char>>(e@),
            },
    {
        let t = text::trim(s);
        let l = text::to_lower(t.as_str());
        let n = text::replace_char_exec(l.as_str(), '_', '-');
        let n = n.as_str();
        if text::str_eq(n, "authorization") {
            Ok(Category::Authorization)
        } else if text::str_eq(n, "authentication") {
            Ok(Category::Authentication)
        } else if text::str_eq(n, "access-control") {
            Ok(Category::AccessControl)
        } else if text::str_eq(n, "cross-contract") {
            Ok(Category::CrossContract)
        } else if text::str_eq(n, "token") {
            Ok(Category::Token)
        } else if text::str_eq(n, "storage") {
            Ok(Category::Storage)
        } else if text::str_eq(n, "arithmetic") {
            Ok(Category::Arithmetic)
        } else if text::str_eq(n, "error-handling") {
            Ok(Category::ErrorHandling)
        } else if text::str_eq(n, "events") {
            Ok(Category::Events)
        } else if text::str_eq(n, "resource-usage") {
            Ok(Category::ResourceUsage)
        } else if text::str_eq(n, "configuration") {
            Ok(Category::Configuration)
        } else if text::str_eq(n, "dependencies") {
            Ok(Category::Dependencies)
        } else if text::str_eq(n, "unsafe") {
            Ok(Category::Unsafe)
        } else {
            Err(text::concat2("unknown category: ", n))
        }
    }
}

impl core::str::FromStr for Category {
    type Err = String;

    fn from_str(s: &str) -> (r: Result<Self, Self::Err>)
        ensures
            match r {
                Ok(v) => category_parse_result(s@) == Ok::<Category, Seq<char>>(v),
                Err(e) => category_parse_result(s@) == Err::<Category, Seq<char>>(e@),
            },
    {
        Category::parse_name(s)
    }
}

/// Parsing the stable name of a category gives that category back.
pub proof fn lemma_category_name_round_trip(c: Category)
    ensures
        category_parse_result(category_name(c)) == Ok::<Category, Seq<char>>(c),
{
    reveal_strlit("authorization");
    reveal_strlit("authentication");
    reveal_strlit("access-control");
    reveal_strlit("cross-contract");
    reveal_strlit("token");
    reveal_strlit("storage");
    reveal_strlit("arithmetic");
    reveal_strlit("error-handling");
    reveal_strlit("events");
    reveal_strlit("resource-usage");
    reveal_strlit("configuration");
    reveal_strlit("dependencies");
    reveal_strlit("unsafe");
    let n = category_name(c);
    assert(text::lead_ws(n) == 0);
    assert(text::trail_ws(n) == 0);
    assert(text::trimmed(n) =~= n);
    assert(text::lower(n) =~= n);
    assert(text::replace_char(n, '_', '-') =~= n);
}

/// A character of a category name: a lowercase ASCII letter or `-`.
pub open spec fn name_char(c: char) -> bool {
    ('a' <= c && c <= 'z') || c == '-'
}

/// Every category name is non-empty and made of lowercase ASCII letters and
/// `-`, and distinct categories have distinct names.
pub proof fn lemma_category_name_shape(c: Category, d: Category)
    ensures
        category_name(c).len() > 0,
        forall|i: int| 0 <= i < category_name(c).len() ==> name_char(#[trigger] category_name(c)[i]),
        c != d ==> category_name(c) != category_name(d),
{
    reveal_strlit("authorization");
    reveal_strlit("authentication");
    reveal_strlit("access-control");
    reveal_strlit("cross-contract");
    reveal_strlit("token");
    reveal_strlit("storage");
    reveal_strlit("arithmetic");
    reveal_strlit("error-handling");
    reveal_strlit("events");
    reveal_strlit("resource-usage");
    reveal_strlit("configuration");
    reveal_strlit("dependencies");
    reveal_strlit("unsafe");
    lemma_category_name_round_trip(c);
    lemma_category_name_round_trip(d);
}

} // verus!
