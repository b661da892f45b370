//! Settings: the stored configuration, the command line, and how a
//! submission's problem, token and language are chosen from them.

use vstd::prelude::*;
use vstd::string::StrSliceExecFns;
use vstd::string::StringExecFns;
use crate::progress::texts;
use crate::render::is_code;

verus! {

/// The pieces of `s` between occurrences of `c`, as `str::split` gives them.
pub open spec fn split_on(s: Seq<char>, c: char) -> Seq<Seq<char>>
    decreases s.len(),
{
    if s.len() == 0 {
        seq![Seq::empty()]
    } else {
        let r = split_on(s.drop_last(), c);
        if s.last() == c {
            r.push(Seq::empty())
        } else {
            r.update(r.len() - 1, r.last().push(s.last()))
        }
    }
}

/// The pieces of `s` between occurrences of `c`.
pub fn split_text(s: &str, c: char) -> (r: Vec<String>)
    ensures
        texts(r@) == split_on(s@, c),
{
    let n = s.unicode_len();
    let mut parts: Vec<String> = Vec::new();
    let mut start: usize = 0;
    let mut i: usize = 0;
    assert(s@.take(0) =~= Seq::<char>::empty());
    assert(s@.subrange(0, 0) =~= Seq::<char>::empty());
    while i < n
        invariant
            n == s@.len(),
            start <= i <= n,
            split_on(s@.take(i as int), c) =~= texts(parts@).push(s@.subrange(start as int, i as int)),
        decreases n - i,
    {
        assert(s@.take(i + 1).drop_last() =~= s@.take(i as int));
        if s.get_char(i) == c {
            let ghost prev = parts@;
            parts.push(String::from_str(s.substring_char(start, i)));
            assert(texts(parts@) =~= texts(prev).push(s@.subrange(start as int, i as int)));
            start = i + 1;
            assert(s@.subrange(start as int, start as int) =~= Seq::<char>::empty());
        } else {
            assert(s@.subrange(start as int, i + 1) =~= s@.subrange(start as int, i as int).push(
                s@[i as int],
            ));
        }
        i = i + 1;
    }
    let ghost prev = parts@;
    parts.push(String::from_str(s.substring_char(start, n)));
    assert(texts(parts@) =~= texts(prev).push(s@.subrange(start as int, n as int)));
    assert(s@.take(n as int) =~= s@);
    parts
}

/// The extension and language key of one `ext:key` piece, if it is one.
pub open spec fn pair_of(piece: Seq<char>) -> Option<(Seq<char>, Seq<char>)> {
    let p = split_on(piece, ':');
    if p.len() == 2 {
        Some((p[0], p[1]))
    } else {
        None
    }
}

/// The pairs of an `ext:key,ext:key,...` argument, or `None` when one of its
/// comma-separated pieces is not one `ext:key` pair.
pub open spec fn parse_pairs(s: Seq<char>) -> Option<Seq<(Seq<char>, Seq<char>)>> {
    let pieces = split_on(s, ',');
    if forall|i: int| 0 <= i < pieces.len() ==> (#[trigger] pair_of(pieces[i])) is Some {
        Some(pieces.map_values(|p: Seq<char>| pair_of(p)->0))
    } else {
        None
    }
}

/// The values of a sequence of text pairs.
pub open spec fn text_pairs(v: Seq<(String, String)>) -> Seq<(Seq<char>, Seq<char>)> {
    v.map_values(|p: (String, String)| (p.0@, p.1@))
}

/// Parses an `ext:key,ext:key,...` argument into its pairs, in order.
pub fn parse_language_arg(s: &str) -> (r: Option<Vec<(String, String)>>)
    ensures
        r is None <==> parse_pairs(s@) is None,
        r is Some ==> text_pairs(r->0@) == parse_pairs(s@)->0,
{
    let pieces = split_text(s, ',');
    let ghost ps = split_on(s@, ',');
    let mut out: Vec<(String, String)> = Vec::new();
    let mut i: usize = 0;
    while i < pieces.len()
        invariant
            texts(pieces@) == ps,
            ps == split_on(s@, ','),
            i <= pieces@.len(),
            forall|j: int| 0 <= j < i ==> (#[trigger] pair_of(ps[j])) is Some,
            text_pairs(out@) =~= ps.take(i as int).map_values(|p: Seq<char>| pair_of(p)->0),
        decreases pieces@.len() - i,
    {
        let mut halves = split_text(pieces[i].as_str(), ':');
        assert(pieces[i as int]@ == ps[i as int]);
        if halves.len() != 2 {
            assert(pair_of(ps[i as int]) is None);
            assert(!(forall|j: int| 0 <= j < ps.len() ==> (#[trigger] pair_of(ps[j])) is Some));
            return None;
        }
        let second = halves.pop().unwrap();
        let first = halves.pop().unwrap();
        let ghost prev = out@;
        out.push((first, second));
        assert(text_pairs(out@) =~= text_pairs(prev).push(pair_of(ps[i as int])->0));
        assert(ps.take(i + 1).map_values(|p: Seq<char>| pair_of(p)->0) =~= ps.take(
            i as int,
        ).map_values(|p: Seq<char>| pair_of(p)->0).push(pair_of(ps[i as int])->0));
        i = i + 1;
    }
    assert(ps.take(ps.len() as int) =~= ps);
    Some(out)
}

/// The value of the last pair of `pairs` whose key is `k`.
pub open spec fn pair_lookup(pairs: Seq<(Seq<char>, Seq<char>)>, k: Seq<char>) -> Option<Seq<char>>
    decreases pairs.len(),
{
    if pairs.len() == 0 {
        None
    } else if pairs.last().0 == k {
        Some(pairs.last().1)
    } else {
        pair_lookup(pairs.drop_last(), k)
    }
}

/// The value of the last pair of `pairs` whose key is `k`.
fn lookup_pair(pairs: &Vec<(String, String)>, k: &String) -> (r: Option<String>)
    ensures
        r is None <==> pair_lookup(text_pairs(pairs@), k@) is None,
        r is Some ==> r->0@ == pair_lookup(text_pairs(pairs@), k@)->0,
{
    let mut i = pairs.len();
    assert(text_pairs(pairs@).take(i as int) =~= text_pairs(pairs@));
    while i > 0
        invariant
            i <= pairs@.len(),
            pair_lookup(text_pairs(pairs@), k@) == pair_lookup(text_pairs(pairs@).take(i as int), k@),
        decreases i,
    {
        assert(text_pairs(pairs@).take(i as int).drop_last() =~= text_pairs(pairs@).take(i - 1));
        if pairs[i - 1].0.eq(k) {
            return Some(pairs[i - 1].1.clone());
        }
        i = i - 1;
    }
    None
}

/// The stored configuration.
pub struct ConfyConfig {
    /// The API token.
    pub token: Option<String>,
    /// File extension to language key pairs; for an extension listed more
    /// than once, the last pair counts.
    pub ext_key_map: Option<Vec<(String, String)>>,
}

impl ConfyConfig {
    /// The extension to language key pairs, empty when there are none.
    pub open spec fn ext_pairs(&self) -> Seq<(Seq<char>, Seq<char>)> {
        match self.ext_key_map {
            Some(v) => text_pairs(v@),
            None => Seq::empty(),
        }
    }

    /// The language key configured for the extension `k`.
    pub open spec fn ext_key_of(&self, k: Seq<char>) -> Option<Seq<char>> {
        pair_lookup(self.ext_pairs(), k)
    }

    /// A configuration with no token and no extension mapping.
    pub fn empty() -> (r: Self)
        ensures
            r.wf(),
            r.token is None,
            r.ext_key_map is None,
    {
        ConfyConfig { token: None, ext_key_map: None }
    }

    /// The language key configured for the extension `ext`.
    pub fn ext_key(&self, ext: &String) -> (r: Option<String>)
        ensures
            r is None <==> self.ext_key_of(ext@) is None,
            r is Some ==> r->0@ == self.ext_key_of(ext@)->0,
    {
        match &self.ext_key_map {
            Some(v) => lookup_pair(v, ext),
            None => None,
        }
    }

    /// Whether no extension is listed twice.
    pub open spec fn wf(&self) -> bool {
        keys_unique(self.ext_pairs())
    }

    /// Maps the extension `ext` to the language key `key`, replacing what it
    /// was mapped to before.
    pub fn set_ext_key(&mut self, ext: String, key: String)
        requires
            old(self).wf(),
        ensures
            final(self).wf(),
            final(self).token == old(self).token,
            final(self).ext_key_map is Some,
            final(self).ext_key_of(ext@) == Some(key@),
            forall|k: Seq<char>| k != ext@ ==> #[trigger] final(self).ext_key_of(k) == old(self).ext_key_of(k),
    {
        let mut v = match self.ext_key_map.take() {
            Some(v) => v,
            None => Vec::new(),
        };
        assert(text_pairs(v@) =~= old(self).ext_pairs());
        let ghost before = text_pairs(v@);
        let n = v.len();
        let mut i: usize = 0;
        while i < n
            invariant
                n == v@.len(),
                i <= n,
                before == text_pairs(v@),
                before == old(self).ext_pairs(),
                self.token == old(self).token,
                keys_unique(before),
                forall|j: int| 0 <= j < i ==> (#[trigger] before[j]).0 != ext@,
            decreases n - i,
        {
            if v[i].0.eq(&ext) {
                let ghost e = ext@;
                let ghost kv = key@;
                assert(before[i as int].0 == e);
                v[i] = (ext, key);
                assert(text_pairs(v@) =~= before.update(i as int, (e, kv)));
                proof { lemma_update_value(before, i as int, kv); }
                self.ext_key_map = Some(v);
                assert(keys_unique(text_pairs(v@)));
                return;
            }
            i = i + 1;
        }
        let ghost e = ext@;
        let ghost kv = key@;
        v.push((ext, key));
        assert(text_pairs(v@) =~= before.push((e, kv)));
        assert(text_pairs(v@).drop_last() =~= before);
        self.ext_key_map = Some(v);
    }
}

/// Whether no key is listed twice in `pairs`.
pub open spec fn keys_unique(pairs: Seq<(Seq<char>, Seq<char>)>) -> bool {
    forall|i: int, j: int| 0 <= i < j < pairs.len() ==> (#[trigger] pairs[i]).0 != (#[trigger] pairs[j]).0
}

/// With no key listed twice, replacing the value of the pair at `i` changes
/// what its key is mapped to, and nothing else.
proof fn lemma_update_value(s: Seq<(Seq<char>, Seq<char>)>, i: int, val: Seq<char>)
    requires
        keys_unique(s),
        0 <= i < s.len(),
    ensures
        keys_unique(s.update(i, (s[i].0, val))),
        forall|k: Seq<char>| #[trigger] pair_lookup(s.update(i, (s[i].0, val)), k) == if k == s[i].0 {
            Some(val)
        } else {
            pair_lookup(s, k)
        },
    decreases s.len(),
{
    let t = s.update(i, (s[i].0, val));
    assert forall|a: int, b: int| 0 <= a < b < t.len() implies (#[trigger] t[a]).0 != (#[trigger] t[b]).0 by {
        assert(t[a].0 == s[a].0 && t[b].0 == s[b].0);
    }
    if i == s.len() - 1 {
        assert(t.drop_last() =~= s.drop_last());
    } else {
        assert(t.drop_last() =~= s.drop_last().update(i, (s[i].0, val)));
        assert(keys_unique(s.drop_last()));
        lemma_update_value(s.drop_last(), i, val);
        assert(s.last().0 != s[i].0);
        assert forall|k: Seq<char>| #[trigger] pair_lookup(t, k) == if k == s[i].0 {
            Some(val)
        } else {
            pair_lookup(s, k)
        } by {
            assert(t.last() == s.last());
            assert(pair_lookup(t.drop_last(), k) == if k == s[i].0 {
                Some(val)
            } else {
                pair_lookup(s.drop_last(), k)
            });
        }
    }
}

/// The arguments of the command that changes the stored configuration.
pub struct ConfigArgs {
    /// A new API token.
    pub token: Option<String>,
    /// File extension to language key pairs, as `cpp:cpp20,py:pypy3`.
    pub language: Option<String>,
}

/// Why the settings of a command cannot be used.
#[derive(Clone, Copy, PartialEq, Eq, Debug)]
pub enum SetupError {
    /// The language argument is not a list of `ext:key` pairs.
    BadLanguageArg,
    /// No problem was given and the file has no name.
    NoFileName,
    /// No problem was given and the file name is not valid Unicode.
    FileNameNotUnicode,
    /// No token was given or configured.
    NoToken,
    /// No language was given and the file has no extension.
    NoExtension,
    /// No language was given and the file extension is not valid Unicode.
    ExtensionNotUnicode,
    /// No language was given and none is known for the file extension.
    UnknownLanguage,
}

impl SetupError {
    /// The text of this error.
    pub fn describe(&self) -> (r: &'static str) {
        match self {
            SetupError::BadLanguageArg => "couldn't parse language argument",
            SetupError::NoFileName => "no file name specified",
            SetupError::FileNameNotUnicode => "file name is not valid Unicode",
            SetupError::NoToken => "API token not defined in configuration",
            SetupError::NoExtension => "no file extension specified",
            SetupError::ExtensionNotUnicode => "file extension is not valid Unicode",
            SetupError::UnknownLanguage => "could not determine language",
        }
    }
}

/// The extension of `pairs` that the language key of `k` comes from: the
/// pairs of the argument where they name `k`, else those configured before.
pub open spec fn merged_key(
    before: Seq<(Seq<char>, Seq<char>)>,
    added: Seq<(Seq<char>, Seq<char>)>,
    k: Seq<char>,
) -> Option<Seq<char>> {
    if pair_lookup(added, k) is Some {
        pair_lookup(added, k)
    } else {
        pair_lookup(before, k)
    }
}

/// Applies the arguments of the configuration command: sets the token when
/// one is given, and maps each extension of the language argument to its
/// key, later pairs over earlier ones. When the language argument does not
/// parse, nothing changes.
pub fn apply_config_args(cfg: &mut ConfyConfig, args: ConfigArgs) -> (r: Result<(), SetupError>)
    requires
        old(cfg).wf(),
    ensures
        final(cfg).wf(),
        args.language is Some && parse_pairs(args.language->0@) is None ==> r == Err::<(), SetupError>(
            SetupError::BadLanguageArg,
        ) && *final(cfg) == *old(cfg),
        !(args.language is Some && parse_pairs(args.language->0@) is None) ==> {
            &&& r is Ok
            &&& final(cfg).token == if args.token is Some { args.token } else { old(cfg).token }
            &&& args.language is Some ==> final(cfg).ext_key_map is Some
            &&& args.language is None ==> final(cfg).ext_key_map == old(cfg).ext_key_map
            &&& forall|k: Seq<char>|
                #[trigger] final(cfg).ext_key_of(k) == merged_key(
                    old(cfg).ext_pairs(),
                    if args.language is Some { parse_pairs(args.language->0@)->0 } else { Seq::empty() },
                    k,
                )
        },
{
    let pairs = match &args.language {
        Some(language) => match parse_language_arg(language.as_str()) {
            Some(p) => Some(p),
            None => {
                return Err(SetupError::BadLanguageArg);
            },
        },
        None => None,
    };
    if let Some(token) = args.token {
        cfg.token = Some(token);
    }
    match pairs {
        Some(p) => {
            if cfg.ext_key_map.is_none() {
                cfg.ext_key_map = Some(Vec::new());
                assert(text_pairs(Seq::<(String, String)>::empty()) =~= Seq::empty());
            }
            let ghost all = text_pairs(p@);
            let ghost before = old(cfg).ext_pairs();
            let ghost token = cfg.token;
            let n = p.len();
            let mut done: usize = 0;
            while done < n
                invariant
                    n == p@.len(),
                    all == text_pairs(p@),
                    done <= n,
                    cfg.ext_key_map is Some,
                    cfg.wf(),
                    cfg.token == token,
                    forall|k: Seq<char>|
                        #[trigger] cfg.ext_key_of(k) == merged_key(before, all.take(done as int), k),
                decreases n - done,
            {
                let ghost prev_cfg = *cfg;
                let ghost last = all[done as int];
                assert(all.take(done + 1).drop_last() =~= all.take(done as int));
                assert(all.take(done + 1).last() == last);
                cfg.set_ext_key(p[done].0.clone(), p[done].1.clone());
                assert forall|k: Seq<char>|
                    #[trigger] cfg.ext_key_of(k) == merged_key(before, all.take(done + 1), k) by {
                    if k != last.0 {
                        assert(cfg.ext_key_of(k) == prev_cfg.ext_key_of(k));
                    }
                }
                done = done + 1;
            }
            assert(all.take(n as int) =~= all);
        },
        None => {
            assert forall|k: Seq<char>| #[trigger] cfg.ext_key_of(k) == merged_key(
                old(cfg).ext_pairs(),
                Seq::empty(),
                k,
            ) by {}
        },
    }
    Ok(())
}

/// The language key used for a file extension that the configuration does
/// not map.
pub open spec fn default_key(ext: Seq<char>) -> Option<Seq<char>> {
    pair_lookup(default_pairs(), ext)
}

/// The default extension to language key pairs.
pub open spec fn default_pairs() -> Seq<(Seq<char>, Seq<char>)> {
    seq![
        ("c"@, "c"@),
        ("cpp"@, "cpp20"@),
        ("java"@, "java"@),
        ("kt"@, "kotlin"@),
        ("py"@, "pypy3"@),
        ("lua"@, "lua"@),
        ("rs"@, "rust"@),
        ("txt"@, "text"@),
        ("go"@, "go"@),
        ("hs"@, "hask"@),
        ("js"@, "v8js"@),
        ("nim"@, "nim"@),
        ("ml"@, "ocaml"@),
        ("zig"@, "zig"@),
    ]
}

/// The default language key of the file extension `ext`.
pub fn default_language_key(ext: &String) -> (r: Option<String>)
    ensures
        r is None <==> default_key(ext@) is None,
        r is Some ==> r->0@ == default_key(ext@)->0,
{
    let table: Vec<(&str, &str)> = vec![
        ("c", "c"),
        ("cpp", "cpp20"),
        ("java", "java"),
        ("kt", "kotlin"),
        ("py", "pypy3"),
        ("lua", "lua"),
        ("rs", "rust"),
        ("txt", "text"),
        ("go", "go"),
        ("hs", "hask"),
        ("js", "v8js"),
        ("nim", "nim"),
        ("ml", "ocaml"),
        ("zig", "zig"),
    ];
    let ghost d = table@.map_values(|p: (&str, &str)| (p.0@, p.1@));
    assert(d =~= default_pairs());
    let mut i = table.len();
    assert(d.take(i as int) =~= d);
    while i > 0
        invariant
            i <= table@.len(),
            d == table@.map_values(|p: (&str, &str)| (p.0@, p.1@)),
            d == default_pairs(),
            pair_lookup(d, ext@) == pair_lookup(d.take(i as int), ext@),
        decreases i,
    {
        assert(d.take(i as int).drop_last() =~= d.take(i - 1));
        if is_code(ext, table[i - 1].0) {
            return Some(String::from_str(table[i - 1].1));
        }
        i = i - 1;
    }
    None
}

/// The language key of the file extension `ext`: the configured one, else
/// the default one.
pub open spec fn language_for_ext(cfg: ConfyConfig, ext: Seq<char>) -> Option<Seq<char>> {
    if cfg.ext_key_of(ext) is Some {
        cfg.ext_key_of(ext)
    } else {
        default_key(ext)
    }
}

/// The language key of the file extension `ext`: the configured one, else
/// the default one.
pub fn resolve_language(cfg: &ConfyConfig, ext: &String) -> (r: Option<String>)
    ensures
        r is None <==> language_for_ext(*cfg, ext@) is None,
        r is Some ==> r->0@ == language_for_ext(*cfg, ext@)->0,
{
    match cfg.ext_key(ext) {
        Some(k) => Some(k),
        None => default_language_key(ext),
    }
}

/// std's `PathBuf`, carried through without being looked into.
#[verifier::external_type_specification]
#[verifier::external_body]
pub struct ExPathBuf(std::path::PathBuf);

/// The arguments of the submit command.
pub struct SubmitArgs {
    /// The file to submit.
    pub file: std::path::PathBuf,
    /// The problem code.
    pub problem: Option<String>,
    /// The API token.
    pub token: Option<String>,
    /// The submission language key.
    pub language: Option<String>,
}

/// The commands of the client.
pub enum Commands {
    /// Sets the default API token and extension to language mapping.
    Config(ConfigArgs),
    /// Submits a file to a problem.
    Submit(SubmitArgs),
    /// Lists the languages the judge offers.
    ListLanguages,
}

/// A part of a file name (its stem or its extension).
pub enum PathPart {
    /// The file name has no such part.
    Absent,
    /// The part is not valid Unicode.
    NotUnicode,
    /// The part's text.
    Text(String),
}

/// What a submission is made with.
pub struct SubmissionPlan {
    pub problem: String,
    pub token: String,
    pub language: String,
}

/// The problem to submit to: the given one, else the file's stem.
pub open spec fn plan_problem(given: Option<String>, stem: PathPart) -> Result<Seq<char>, SetupError> {
    match given {
        Some(p) => Ok(p@),
        None => match stem {
            PathPart::Absent => Err(SetupError::NoFileName),
            PathPart::NotUnicode => Err(SetupError::FileNameNotUnicode),
            PathPart::Text(t) => Ok(t@),
        },
    }
}

/// The token to submit with: the given one, else the configured one.
pub open spec fn plan_token(given: Option<String>, cfg: ConfyConfig) -> Result<Seq<char>, SetupError> {
    match given {
        Some(t) => Ok(t@),
        None => match cfg.token {
            Some(t) => Ok(t@),
            None => Err(SetupError::NoToken),
        },
    }
}

/// The language to submit in: the given one, else the one of the file's
/// extension.
pub open spec fn plan_language(given: Option<String>, ext: PathPart, cfg: ConfyConfig) -> Result<
    Seq<char>,
    SetupError,
> {
    match given {
        Some(l) => Ok(l@),
        None => match ext {
            PathPart::Absent => Err(SetupError::NoExtension),
            PathPart::NotUnicode => Err(SetupError::ExtensionNotUnicode),
            PathPart::Text(e) => match language_for_ext(cfg, e@) {
                Some(k) => Ok(k),
                None => Err(SetupError::UnknownLanguage),
            },
        },
    }
}

/// Whether `r` is the plan of a submission: the problem, the token and the
/// language chosen in that order, or the error of the first that fails.
pub open spec fn is_plan(
    r: Result<SubmissionPlan, SetupError>,
    args: SubmitArgs,
    cfg: ConfyConfig,
    stem: PathPart,
    ext: PathPart,
) -> bool {
    let p = plan_problem(args.problem, stem);
    let t = plan_token(args.token, cfg);
    let l = plan_language(args.language, ext, cfg);
    if p is Err {
        r == Err::<SubmissionPlan, SetupError>(p->Err_0)
    } else if t is Err {
        r == Err::<SubmissionPlan, SetupError>(t->Err_0)
    } else if l is Err {
        r == Err::<SubmissionPlan, SetupError>(l->Err_0)
    } else {
        &&& r is Ok
        &&& r->Ok_0.problem@ == p->Ok_0
        &&& r->Ok_0.token@ == t->Ok_0
        &&& r->Ok_0.language@ == l->Ok_0
    }
}

/// Chooses the problem, token and language of a submission from the
/// command's arguments, the configuration, and the stem and extension of
/// the file's name.
pub fn plan_submission(args: &SubmitArgs, cfg: &ConfyConfig, stem: PathPart, ext: PathPart) -> (r:
    Result<SubmissionPlan, SetupError>)
    ensures
        is_plan(r, *args, *cfg, stem, ext),
{
    let problem = match &args.problem {
        Some(p) => p.clone(),
        None => match stem {
            PathPart::Absent => {
                return Err(SetupError::NoFileName);
            },
            PathPart::NotUnicode => {
                return Err(SetupError::FileNameNotUnicode);
            },
            PathPart::Text(t) => t,
        },
    };
    let token = match &args.token {
        Some(t) => t.clone(),
        None => match &cfg.token {
            Some(t) => t.clone(),
            None => {
                return Err(SetupError::NoToken);
            },
        },
    };
    let language = match &args.language {
        Some(l) => l.clone(),
        None => match ext {
            PathPart::Absent => {
                return Err(SetupError::NoExtension);
            },
            PathPart::NotUnicode => {
                return Err(SetupError::ExtensionNotUnicode);
            },
            PathPart::Text(e) => match resolve_language(cfg, &e) {
                Some(k) => k,
                None => {
                    return Err(SetupError::UnknownLanguage);
                },
            },
        },
    };
    Ok(SubmissionPlan { problem, token, language })
}

/// Whether a character is white space, as `char::is_whitespace` has it: the
/// characters of Unicode's `White_Space` property.
pub open spec fn is_white(c: char) -> bool {
    let u = c as u32;
    ||| 0x09 <= u <= 0x0d
    ||| u == 0x20
    ||| u == 0x85
    ||| u == 0xa0
    ||| u == 0x1680
    ||| 0x2000 <= u <= 0x200a
    ||| u == 0x2028
    ||| u == 0x2029
    ||| u == 0x202f
    ||| u == 0x205f
    ||| u == 0x3000
}

/// Whether a source text holds nothing but white space.
pub fn is_blank(source: &str) -> (r: bool)
    ensures
        r == forall|i: int| 0 <= i < source@.len() ==> is_white(#[trigger] source@[i]),
{
    let n = source.unicode_len();
    let mut i: usize = 0;
    while i < n
        invariant
            n == source@.len(),
            i <= n,
            forall|j: int| 0 <= j < i ==> is_white(#[trigger] source@[j]),
        decreases n - i,
    {
        let c = source.get_char(i);
        let u = c as u32;
        let white = (0x09 <= u && u <= 0x0d) || u == 0x20 || u == 0x85 || u == 0xa0 || u == 0x1680
            || (0x2000 <= u && u <= 0x200a) || u == 0x2028 || u == 0x2029 || u == 0x202f || u
            == 0x205f || u == 0x3000;
        if !white {
            return false;
        }
        i = i + 1;
    }
    true
}

} // verus!
