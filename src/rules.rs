use vstd::prelude::*;

verus! {

/// regex::Regex, a compiled regular expression, carried as an opaque value.
#[verifier::external_type_specification]
#[verifier::external_body]
pub struct ExRegex(regex::Regex);

/// regex::Error, why a pattern did not compile, carried as an opaque value.
#[verifier::external_type_specification]
#[verifier::external_body]
pub struct ExRegexError(regex::Error);

/// Whether the regex crate accepts `pattern` as a regular expression.
pub uninterp spec fn is_valid_pattern(pattern: Seq<char>) -> bool;

/// Whether the regular expression `pattern` matches somewhere inside `text`.
pub uninterp spec fn pattern_finds(pattern: Seq<char>, text: Seq<char>) -> bool;

/// `text` with the leftmost match of `pattern` replaced by the expansion of the
/// template `replacement` (capture references such as `$1` filled in).
pub uninterp spec fn substitute_first(
    pattern: Seq<char>,
    replacement: Seq<char>,
    text: Seq<char>,
) -> Seq<char>;

/// Relies on regex::Regex::new: it fails exactly on patterns that do not compile,
/// and the outcome depends on the pattern text alone.
#[verifier::external_body]
fn compile(pattern: &str) -> (r: Result<regex::Regex, regex::Error>)
    ensures
        r is Ok <==> is_valid_pattern(pattern@),
{
    regex::Regex::new(pattern)
}

/// One renaming rule: a compiled pattern and the replacement template.
///
/// The compiled `regex` is only ever produced by `compile` from `pattern`, in
/// `Rule::new`; the fields are private so that the two cannot drift apart.
pub struct Rule {
    pattern: String,
    replacement: String,
    regex: regex::Regex,
}

/// The error of a rule list whose pattern at `index` does not compile.
pub struct RuleError {
    pub index: usize,
    pub pattern: String,
    pub cause: regex::Error,
}

impl View for Rule {
    type V = (Seq<char>, Seq<char>);

    closed spec fn view(&self) -> (Seq<char>, Seq<char>) {
        (self.pattern@, self.replacement@)
    }
}

impl Rule {
    /// Compiles `pattern`; succeeds exactly when the pattern is a valid regular
    /// expression.
    pub fn new(pattern: &str, replacement: &str) -> (r: Result<Rule, regex::Error>)
        ensures
            r is Ok <==> is_valid_pattern(pattern@),
            r matches Ok(rule) ==> rule@ == (pattern@, replacement@),
    {
        match compile(pattern) {
            Ok(regex) => Ok(Rule { pattern: pattern.to_owned(), replacement: replacement.to_owned(), regex }),
            Err(e) => Err(e),
        }
    }

    pub fn pattern(&self) -> (r: &str)
        ensures
            r@ == self@.0,
    {
        self.pattern.as_str()
    }

    pub fn replacement(&self) -> (r: &str)
        ensures
            r@ == self@.1,
    {
        self.replacement.as_str()
    }

    /// Relies on regex::Regex::is_match, applied to the regex compiled from
    /// this rule's pattern: true iff the pattern matches anywhere in `text`.
    #[verifier::external_body]
    pub fn finds_in(&self, text: &str) -> (r: bool)
        ensures
            r == pattern_finds(self@.0, text@),
    {
        self.regex.is_match(text)
    }

    /// Relies on regex::Regex::replace, applied to the regex compiled from this
    /// rule's pattern, with the replacement template of this rule: the leftmost
    /// match is replaced by the expanded template.
    #[verifier::external_body]
    pub fn substitute(&self, text: &str) -> (r: String)
        ensures
            r@ == substitute_first(self@.0, self@.1, text@),
    {
        self.regex.replace(text, self.replacement.as_str()).into_owned()
    }
}


/// The view of a list of (pattern, replacement) pairs.
pub open spec fn pairs_view(pairs: Seq<(String, String)>) -> Seq<(Seq<char>, Seq<char>)> {
    pairs.map_values(|p: (String, String)| (p.0@, p.1@))
}

/// Every pattern of `pairs` before position `end` compiles.
pub open spec fn all_valid_before(pairs: Seq<(String, String)>, end: int) -> bool {
    forall|j: int| 0 <= j < end ==> is_valid_pattern(#[trigger] pairs[j].0@)
}

/// Position `i` holds the first pattern of `pairs` that does not compile.
pub open spec fn is_first_invalid(pairs: Seq<(String, String)>, i: int) -> bool {
    &&& 0 <= i < pairs.len()
    &&& !is_valid_pattern(pairs[i].0@)
    &&& all_valid_before(pairs, i)
}

/// No rule before position `end` matches `name`.
pub open spec fn none_match_before(rules: Seq<(Seq<char>, Seq<char>)>, name: Seq<char>, end: int) -> bool {
    forall|j: int| 0 <= j < end ==> !pattern_finds(#[trigger] rules[j].0, name)
}

/// Rule `i` is the first rule, in declared order, that matches `name`.
pub open spec fn is_first_match(rules: Seq<(Seq<char>, Seq<char>)>, name: Seq<char>, i: int) -> bool {
    &&& 0 <= i < rules.len()
    &&& pattern_finds(rules[i].0, name)
    &&& none_match_before(rules, name, i)
}

/// What rule `rule` turns `name` into.
pub open spec fn rewritten(rule: (Seq<char>, Seq<char>), name: Seq<char>) -> Seq<char> {
    substitute_first(rule.0, rule.1, name)
}

/// At most one rule is the first to match a name.
pub proof fn lemma_first_match_unique(rules: Seq<(Seq<char>, Seq<char>)>, name: Seq<char>, i: int, j: int)
    requires
        is_first_match(rules, name, i),
        is_first_match(rules, name, j),
    ensures
        i == j,
{
    if i < j {
        assert(!pattern_finds(rules[i].0, name));
    } else if j < i {
        assert(!pattern_finds(rules[j].0, name));
    }
}

/// The choice of rule depends only on the rules up to the first one that
/// matches: two rule lists that agree up to it choose the same rule, and
/// rewrite the name the same way, whatever follows.
pub proof fn lemma_first_match_ignores_later_rules(
    a: Seq<(Seq<char>, Seq<char>)>,
    b: Seq<(Seq<char>, Seq<char>)>,
    name: Seq<char>,
    i: int,
)
    requires
        is_first_match(a, name, i),
        i < b.len(),
        a.take(i + 1) == b.take(i + 1),
    ensures
        is_first_match(b, name, i),
        rewritten(a[i], name) == rewritten(b[i], name),
{
    assert forall|j: int| 0 <= j <= i implies a[j] == b[j] by {
        assert(a.take(i + 1)[j] == b.take(i + 1)[j]);
    }
}

/// The outcome of looking a filename up in a rule set.
pub enum Decision {
    /// No rule matches.
    NoMatch,
    /// Rule `rule` is the first that matches, and leaves the name as it is.
    Unchanged { rule: usize },
    /// Rule `rule` is the first that matches, and gives the name `new_name`.
    Rename { rule: usize, new_name: String },
}

impl Decision {
    /// The decision once rule `rule` has matched `filename` and rewritten it to
    /// `new_name`: a name that comes out as it went in is left alone.
    pub fn from_rewrite(rule: usize, filename: &str, new_name: String) -> (d: Decision)
        ensures
            new_name@ == filename@ ==> d == (Decision::Unchanged { rule }),
            new_name@ != filename@ ==> d == (Decision::Rename { rule, new_name }),
    {
        let original = filename.to_owned();
        if new_name == original {
            Decision::Unchanged { rule }
        } else {
            Decision::Rename { rule, new_name }
        }
    }
}

/// `d` is what the rules `rules` decide for the name `name`.
pub open spec fn decided(rules: Seq<(Seq<char>, Seq<char>)>, name: Seq<char>, d: Decision) -> bool {
    match d {
        Decision::NoMatch => none_match_before(rules, name, rules.len() as int),
        Decision::Unchanged { rule } => {
            &&& is_first_match(rules, name, rule as int)
            &&& rewritten(rules[rule as int], name) == name
        },
        Decision::Rename { rule, new_name } => {
            &&& is_first_match(rules, name, rule as int)
            &&& new_name@ == rewritten(rules[rule as int], name)
            &&& new_name@ != name
        },
    }
}

/// A name that the first matching rule rewrites to itself is left alone:
/// whatever meets the contract of `decide` for it is `Unchanged`, never a rename.
pub proof fn lemma_fixed_point_is_unchanged(
    rules: Seq<(Seq<char>, Seq<char>)>,
    name: Seq<char>,
    i: int,
    d: Decision,
)
    requires
        is_first_match(rules, name, i),
        rewritten(rules[i], name) == name,
        decided(rules, name, d),
    ensures
        d == (Decision::Unchanged { rule: i as usize }),
{
    match d {
        Decision::NoMatch => {
            assert(!pattern_finds(rules[i].0, name));
        },
        Decision::Unchanged { rule } => {
            lemma_first_match_unique(rules, name, i, rule as int);
        },
        Decision::Rename { rule, new_name } => {
            lemma_first_match_unique(rules, name, i, rule as int);
        },
    }
}

/// An ordered list of rules; the first rule that matches a filename decides.
pub struct RuleSet {
    rules: Vec<Rule>,
}

impl View for RuleSet {
    type V = Seq<(Seq<char>, Seq<char>)>;

    closed spec fn view(&self) -> Seq<(Seq<char>, Seq<char>)> {
        self.rules@.map_values(|r: Rule| r@)
    }
}

impl RuleSet {
    pub fn new() -> (r: RuleSet)
        ensures
            r@ == Seq::<(Seq<char>, Seq<char>)>::empty(),
    {
        let r = RuleSet { rules: Vec::new() };
        assert(r@ =~= Seq::<(Seq<char>, Seq<char>)>::empty());
        r
    }

    /// Compiles every pattern of `pairs`, keeping their order. Fails on the
    /// first pattern that does not compile, and then builds nothing.
    pub fn from_pairs(pairs: &Vec<(String, String)>) -> (r: Result<RuleSet, RuleError>)
        ensures
            r is Ok <==> all_valid_before(pairs@, pairs@.len() as int),
            r matches Ok(set) ==> set@ == pairs_view(pairs@),
            r matches Err(e) ==> is_first_invalid(pairs@, e.index as int) && e.pattern@ == pairs@[e.index as int].0@,
    {
        let mut rules: Vec<Rule> = Vec::new();
        let mut i: usize = 0;
        while i < pairs.len()
            invariant
                i <= pairs@.len(),
                rules@.len() == i,
                all_valid_before(pairs@, i as int),
                forall|j: int| 0 <= j < i ==> (#[trigger] rules@[j])@ == (pairs@[j].0@, pairs@[j].1@),
            decreases pairs@.len() - i,
        {
            let pattern = pairs[i].0.as_str();
            match Rule::new(pattern, pairs[i].1.as_str()) {
                Ok(rule) => {
                    rules.push(rule);
                },
                Err(cause) => {
                    return Err(RuleError { index: i, pattern: pattern.to_owned(), cause });
                },
            }
            i = i + 1;
        }
        let set = RuleSet { rules };
        assert(set@ =~= pairs_view(pairs@));
        Ok(set)
    }

    /// Replaces the rules by those compiled from `pairs`. When a pattern does not
    /// compile, the rule set is left exactly as it was.
    pub fn reload(&mut self, pairs: &Vec<(String, String)>) -> (r: Result<(), RuleError>)
        ensures
            r is Ok <==> all_valid_before(pairs@, pairs@.len() as int),
            r is Ok ==> final(self)@ == pairs_view(pairs@),
            r is Err ==> *final(self) == *old(self),
            r matches Err(e) ==> is_first_invalid(pairs@, e.index as int) && e.pattern@ == pairs@[e.index as int].0@,
    {
        match RuleSet::from_pairs(pairs) {
            Ok(set) => {
                *self = set;
                Ok(())
            },
            Err(e) => Err(e),
        }
    }

    pub fn len(&self) -> (r: usize)
        ensures
            r == self@.len(),
    {
        self.rules.len()
    }

    pub fn is_empty(&self) -> (r: bool)
        ensures
            r == (self@.len() == 0),
    {
        self.rules.len() == 0
    }

    pub fn rule(&self, i: usize) -> (r: &Rule)
        requires
            i < self@.len(),
        ensures
            r@ == self@[i as int],
    {
        &self.rules[i]
    }

    /// Scans the rules in declared order and lets the first one that matches
    /// `filename` decide; later rules are never consulted.
    pub fn decide(&self, filename: &str) -> (d: Decision)
        ensures
            decided(self@, filename@, d),
    {
        let mut i: usize = 0;
        while i < self.rules.len()
            invariant
                i <= self@.len(),
                none_match_before(self@, filename@, i as int),
            decreases self@.len() - i,
        {
            let rule = &self.rules[i];
            if rule.finds_in(filename) {
                let new_name = rule.substitute(filename);
                return Decision::from_rewrite(i, filename, new_name);
            }
            i = i + 1;
        }
        Decision::NoMatch
    }
}

} // verus!
