//! Configuration file formats, the paths a configuration is searched at, and
//! layered configurations.
use vstd::prelude::*;

use crate::logging::context::opt_text;
use crate::text::{all_ascii, ascii_lower, ascii_upper, cat, lowercase_of, str_eq, to_lowercase};

verus! {

/// What `Path::extension` gives for a path: the part of the file name after
/// its last `.`, with none for a file name without a dot or that is a dot file.
pub uninterp spec fn path_extension(path: Seq<char>) -> Option<Seq<char>>;

/// `std::path::Path::extension` of a UTF-8 path, as text. Which part of the
/// file name is the extension is std's rule; only the name `path_extension`
/// is stated.
#[verifier::external_body]
pub(crate) fn extension_of(path: &str) -> (r: Option<String>)
    ensures
        opt_text(r) == path_extension(path@),
{
    std::path::Path::new(path).extension().and_then(|e| e.to_str()).map(|e| e.to_owned())
}

/// What `Path::join` gives on Unix paths: an absolute `rest` (one starting
/// with `/`) replaces `base`; otherwise `rest` follows `base`, after a `/`
/// unless `base` is empty or already ends with one.
pub open spec fn joined_path(base: Seq<char>, rest: Seq<char>) -> Seq<char> {
    if rest.len() > 0 && rest[0] == '/' {
        rest
    } else if base.len() == 0 || base.last() == '/' {
        base + rest
    } else {
        base + "/"@ + rest
    }
}

/// `std::path::Path::join` on UTF-8 Unix paths, as `joined_path` states it.
#[verifier::external_body]
fn join_path(base: &str, rest: &str) -> (r: String)
    ensures
        r@ == joined_path(base@, rest@),
{
    std::path::Path::new(base).join(rest).to_string_lossy().into_owned()
}

/// Supported configuration file formats.
#[derive(Debug, Clone, Copy, PartialEq, Eq, Hash, Structural)]
pub enum ConfigFormat {
    /// YAML format (.yaml, .yml)
    Yaml,
    /// JSON format (.json)
    Json,
    /// TOML format (.toml)
    Toml,
}

/// The format a lowercased extension denotes.
pub open spec fn spec_format_of(ext: Seq<char>) -> Option<ConfigFormat> {
    if ext == "yaml"@ || ext == "yml"@ {
        Some(ConfigFormat::Yaml)
    } else if ext == "json"@ {
        Some(ConfigFormat::Json)
    } else if ext == "toml"@ {
        Some(ConfigFormat::Toml)
    } else {
        None
    }
}

/// The format of a path, by its extension ignoring case.
pub open spec fn spec_format_of_path(path: Seq<char>) -> Option<ConfigFormat> {
    match path_extension(path) {
        Some(e) => spec_format_of(lowercase_of(e)),
        None => None,
    }
}

/// The extensions of each format, the primary one first.
pub open spec fn spec_extensions(f: ConfigFormat) -> Seq<Seq<char>> {
    match f {
        ConfigFormat::Yaml => seq!["yaml"@, "yml"@],
        ConfigFormat::Json => seq!["json"@],
        ConfigFormat::Toml => seq!["toml"@],
    }
}

impl ConfigFormat {
    /// The format of a file extension, ignoring case.
    pub fn from_extension(ext: &str) -> (r: Option<ConfigFormat>)
        ensures
            r == spec_format_of(lowercase_of(ext@)),
            all_ascii(ext@) ==> r == spec_format_of(ascii_lower(ext@)),
    {
        let lower = to_lowercase(ext);
        let e = lower.as_str();
        if str_eq(e, "yaml") || str_eq(e, "yml") {
            Some(ConfigFormat::Yaml)
        } else if str_eq(e, "json") {
            Some(ConfigFormat::Json)
        } else if str_eq(e, "toml") {
            Some(ConfigFormat::Toml)
        } else {
            None
        }
    }

    /// The format of a file path, by its extension.
    pub fn from_path(path: &str) -> (r: Option<ConfigFormat>)
        ensures
            r == spec_format_of_path(path@),
    {
        match extension_of(path) {
            Some(e) => ConfigFormat::from_extension(e.as_str()),
            None => None,
        }
    }

    /// The primary file extension of the format.
    pub fn extension(&self) -> (r: &'static str)
        ensures
            r@ == spec_extensions(*self)[0],
    {
        match self {
            ConfigFormat::Yaml => "yaml",
            ConfigFormat::Json => "json",
            ConfigFormat::Toml => "toml",
        }
    }

    /// All extensions of the format, the primary one first.
    pub fn extensions(&self) -> (r: &'static [&'static str])
        ensures
            r@.map_values(|e: &str| e@) == spec_extensions(*self),
    {
        match self {
            ConfigFormat::Yaml => {
                let r: &'static [&'static str] = &["yaml", "yml"];
                assert(r@.map_values(|e: &str| e@) =~= spec_extensions(*self));
                r
            },
            ConfigFormat::Json => {
                let r: &'static [&'static str] = &["json"];
                assert(r@.map_values(|e: &str| e@) =~= spec_extensions(*self));
                r
            },
            ConfigFormat::Toml => {
                let r: &'static [&'static str] = &["toml"];
                assert(r@.map_values(|e: &str| e@) =~= spec_extensions(*self));
                r
            },
        }
    }

    /// The MIME type of the format.
    pub fn mime_type(&self) -> (r: &'static str)
        ensures
            r@ == match *self {
                ConfigFormat::Yaml => "application/x-yaml"@,
                ConfigFormat::Json => "application/json"@,
                ConfigFormat::Toml => "application/toml"@,
            },
    {
        match self {
            ConfigFormat::Yaml => "application/x-yaml",
            ConfigFormat::Json => "application/json",
            ConfigFormat::Toml => "application/toml",
        }
    }

    /// The text `Display` shows: `YAML`, `JSON` or `TOML`.
    pub fn to_string(&self) -> (r: String)
        ensures
            r@ == match *self {
                ConfigFormat::Yaml => "YAML"@,
                ConfigFormat::Json => "JSON"@,
                ConfigFormat::Toml => "TOML"@,
            },
    {
        match self {
            ConfigFormat::Yaml => "YAML".to_owned(),
            ConfigFormat::Json => "JSON".to_owned(),
            ConfigFormat::Toml => "TOML".to_owned(),
        }
    }
}

/// Every ASCII spelling of an extension of a format, in any mix of upper and
/// lower case, is recognized as that format (see `from_extension`).
pub proof fn lemma_extensions_recognized_any_case(f: ConfigFormat, i: int, t: Seq<char>)
    requires
        0 <= i < spec_extensions(f).len(),
        all_ascii(t),
        ascii_lower(t) == spec_extensions(f)[i],
    ensures
        spec_format_of(ascii_lower(t)) == Some(f),
{
    lemma_extensions_recognized(f, i);
}

/// An ASCII text lowercased after uppercasing is its own lowercase.
proof fn lemma_lower_of_upper(t: Seq<char>)
    ensures
        ascii_lower(ascii_upper(t)) == ascii_lower(t),
        all_ascii(t) ==> all_ascii(ascii_upper(t)),
{
    assert(ascii_lower(ascii_upper(t)) =~= ascii_lower(t));
}

/// Each extension of a format is plain lowercase ASCII, and it is recognized
/// as that format as written and in upper case (see `from_extension`, whose
/// result on ASCII text is `spec_format_of` of its ASCII lowercase); `txt` is
/// no format.
pub proof fn lemma_format_extensions_round_trip(f: ConfigFormat, i: int)
    requires
        0 <= i < spec_extensions(f).len(),
    ensures
        all_ascii(spec_extensions(f)[i]),
        spec_format_of(ascii_lower(spec_extensions(f)[i])) == Some(f),
        all_ascii(ascii_upper(spec_extensions(f)[i])),
        spec_format_of(ascii_lower(ascii_upper(spec_extensions(f)[i]))) == Some(f),
        spec_format_of(ascii_lower("txt"@)) == None::<ConfigFormat>,
{
    reveal_strlit("yaml");
    reveal_strlit("yml");
    reveal_strlit("json");
    reveal_strlit("toml");
    reveal_strlit("txt");
    let e = spec_extensions(f)[i];
    assert(all_ascii(e));
    assert(ascii_lower(e) =~= e);
    lemma_lower_of_upper(e);
    lemma_extensions_recognized(f, i);
    assert(ascii_lower("txt"@) =~= "txt"@);
    assert("txt"@.len() != "yaml"@.len() && "txt"@.len() != "json"@.len());
    assert("txt"@[0] != "yml"@[0] && "txt"@[1] != "toml"@[1]);
}

/// Every extension of a format is recognized as that format.
pub proof fn lemma_extensions_recognized(f: ConfigFormat, i: int)
    requires
        0 <= i < spec_extensions(f).len(),
    ensures
        spec_format_of(spec_extensions(f)[i]) == Some(f),
{
    reveal_strlit("yaml");
    reveal_strlit("yml");
    reveal_strlit("json");
    reveal_strlit("toml");
    assert("json"@[0] != "yaml"@[0] && "json"@.len() != "yml"@.len());
    assert("toml"@[0] != "yaml"@[0] && "toml"@.len() != "yml"@.len() && "toml"@[0] != "json"@[0]);
}

/// Loading and saving of configuration files (the reading, writing and
/// parsing itself is I/O and lives with the application).
#[derive(Debug)]
pub struct ConfigLoader;

impl ConfigLoader {
    /// Whether the path has an extension of a supported format.
    pub fn is_supported(path: &str) -> (r: bool)
        ensures
            r == spec_format_of_path(path@) is Some,
    {
        ConfigFormat::from_path(path).is_some()
    }
}

/// Configuration file discovery.
#[derive(Debug)]
pub struct ConfigDiscovery {
    base_name: String,
    search_dirs: Vec<String>,
    formats: Vec<ConfigFormat>,
}

/// The candidate file names of one format: the base name with each extension.
pub open spec fn format_names(base: Seq<char>, f: ConfigFormat) -> Seq<Seq<char>> {
    spec_extensions(f).map_values(|e: Seq<char>| base + "."@ + e)
}

/// The candidate file names over formats in order.
pub open spec fn names_of(base: Seq<char>, formats: Seq<ConfigFormat>) -> Seq<Seq<char>>
    decreases formats.len(),
{
    if formats.len() == 0 {
        Seq::empty()
    } else {
        names_of(base, formats.drop_last()) + format_names(base, formats.last())
    }
}

/// The candidate paths over directories in order: each directory joined with
/// each candidate file name.
pub open spec fn candidates_of(
    base: Seq<char>,
    dirs: Seq<Seq<char>>,
    formats: Seq<ConfigFormat>,
) -> Seq<Seq<char>>
    decreases dirs.len(),
{
    if dirs.len() == 0 {
        Seq::empty()
    } else {
        candidates_of(base, dirs.drop_last(), formats) + names_of(base, formats).map_values(
            |n: Seq<char>| joined_path(dirs.last(), n),
        )
    }
}

/// The default formats, in order of preference.
pub open spec fn default_formats() -> Seq<ConfigFormat> {
    seq![ConfigFormat::Yaml, ConfigFormat::Toml, ConfigFormat::Json]
}

impl ConfigDiscovery {
    /// The base name of the configuration files.
    pub closed spec fn spec_base(&self) -> Seq<char> {
        self.base_name@
    }

    /// The search directories, in order of precedence.
    pub closed spec fn spec_dirs(&self) -> Seq<Seq<char>> {
        self.search_dirs@.map_values(|d: String| d@)
    }

    /// The formats, in order of preference.
    pub closed spec fn spec_formats(&self) -> Seq<ConfigFormat> {
        self.formats@
    }

    /// Discovery of files with the given base name, in no directory yet, with
    /// YAML, TOML and JSON preferred in that order.
    pub fn new(base_name: &str) -> (r: Self)
        ensures
            r.spec_base() == base_name@,
            r.spec_dirs() == Seq::<Seq<char>>::empty(),
            r.spec_formats() == default_formats(),
    {
        let mut formats: Vec<ConfigFormat> = Vec::new();
        formats.push(ConfigFormat::Yaml);
        formats.push(ConfigFormat::Toml);
        formats.push(ConfigFormat::Json);
        let r = ConfigDiscovery { base_name: base_name.to_owned(), search_dirs: Vec::new(), formats };
        assert(r.spec_dirs() =~= Seq::<Seq<char>>::empty());
        assert(r.spec_formats() =~= default_formats());
        r
    }

    /// Adds a search directory.
    pub fn search_dir(self, dir: &str) -> (r: Self)
        ensures
            r.spec_base() == self.spec_base(),
            r.spec_dirs() == self.spec_dirs().push(dir@),
            r.spec_formats() == self.spec_formats(),
    {
        let mut s = self;
        s.search_dirs.push(dir.to_owned());
        assert(s.spec_dirs() =~= self.spec_dirs().push(dir@));
        s
    }

    /// Adds several search directories, in order.
    pub fn search_dirs(self, dirs: &[&str]) -> (r: Self)
        ensures
            r.spec_base() == self.spec_base(),
            r.spec_dirs() == self.spec_dirs() + dirs@.map_values(|d: &str| d@),
            r.spec_formats() == self.spec_formats(),
    {
        let mut s = self;
        let mut i: usize = 0;
        while i < dirs.len()
            invariant
                i <= dirs@.len(),
                s.spec_base() == self.spec_base(),
                s.spec_formats() == self.spec_formats(),
                s.spec_dirs() == self.spec_dirs() + dirs@.subrange(0, i as int).map_values(
                    |d: &str| d@,
                ),
            decreases dirs@.len() - i,
        {
            let ghost before = s.spec_dirs();
            s.search_dirs.push(dirs[i].to_owned());
            assert(s.spec_dirs() =~= before.push(dirs@[i as int]@));
            assert(dirs@.subrange(0, i + 1).map_values(|d: &str| d@) =~= dirs@.subrange(
                0,
                i as int,
            ).map_values(|d: &str| d@).push(dirs@[i as int]@));
            i = i + 1;
        }
        assert(dirs@.subrange(0, dirs@.len() as int) =~= dirs@);
        s
    }

    /// Sets the preferred formats.
    pub fn formats(self, formats: Vec<ConfigFormat>) -> (r: Self)
        ensures
            r.spec_base() == self.spec_base(),
            r.spec_dirs() == self.spec_dirs(),
            r.spec_formats() == formats@,
    {
        let mut s = self;
        s.formats = formats;
        s
    }

    /// Adds the standard search locations: `.`, `./config`, the
    /// application's directory under `home/.config` when a home directory is
    /// known, and the application's directory under `/etc`.
    pub fn with_standard_dirs(self, app_name: &str, home: Option<&str>) -> (r: Self)
        ensures
            r.spec_base() == self.spec_base(),
            r.spec_formats() == self.spec_formats(),
            r.spec_dirs() == match home {
                Some(h) => self.spec_dirs().push("."@).push("./config"@).push(
                    joined_path(joined_path(h@, ".config"@), app_name@),
                ).push(joined_path("/etc"@, app_name@)),
                None => self.spec_dirs().push("."@).push("./config"@).push(
                    joined_path("/etc"@, app_name@),
                ),
            },
    {
        let mut s = self.search_dir(".").search_dir("./config");
        if let Some(h) = home {
            let user = join_path(join_path(h, ".config").as_str(), app_name);
            s = s.search_dir(user.as_str());
        }
        let system = join_path("/etc", app_name);
        s.search_dir(system.as_str())
    }

    fn names(&self) -> (r: Vec<String>)
        ensures
            r@.map_values(|n: String| n@) == names_of(self.spec_base(), self.spec_formats()),
    {
        let mut names: Vec<String> = Vec::new();
        let mut i: usize = 0;
        while i < self.formats.len()
            invariant
                i <= self.formats@.len(),
                names@.map_values(|n: String| n@) == names_of(
                    self.spec_base(),
                    self.spec_formats().subrange(0, i as int),
                ),
            decreases self.formats@.len() - i,
        {
            let f = self.formats[i];
            let exts = f.extensions();
            let ghost before = names@.map_values(|n: String| n@);
            let mut j: usize = 0;
            while j < exts.len()
                invariant
                    j <= exts@.len(),
                    exts@.map_values(|e: &str| e@) == spec_extensions(f),
                    names@.map_values(|n: String| n@) == before + format_names(
                        self.spec_base(),
                        f,
                    ).subrange(0, j as int),
                decreases exts@.len() - j,
            {
                let name = cat(self.base_name.as_str(), ".").concat(exts[j]);
                let ghost prev = names@.map_values(|n: String| n@);
                names.push(name);
                assert(names@.map_values(|n: String| n@) =~= prev.push(name@));
                assert(format_names(self.spec_base(), f).subrange(0, j + 1) =~= format_names(
                    self.spec_base(),
                    f,
                ).subrange(0, j as int).push(name@));
                j = j + 1;
            }
            assert(format_names(self.spec_base(), f).subrange(0, exts@.len() as int) =~= format_names(
                self.spec_base(),
                f,
            ));
            assert(self.spec_formats().subrange(0, i + 1).drop_last() =~= self.spec_formats().subrange(
                0,
                i as int,
            ));
            i = i + 1;
        }
        assert(self.spec_formats().subrange(0, self.formats@.len() as int) =~= self.spec_formats());
        names
    }

    /// All candidate paths: for each directory in order, for each format in
    /// order, for each of its extensions, the directory joined with
    /// `base_name.extension`.
    pub fn candidates(&self) -> (r: Vec<String>)
        ensures
            r@.map_values(|p: String| p@) == candidates_of(
                self.spec_base(),
                self.spec_dirs(),
                self.spec_formats(),
            ),
    {
        let names = self.names();
        let ghost ns = names_of(self.spec_base(), self.spec_formats());
        let mut out: Vec<String> = Vec::new();
        let mut i: usize = 0;
        while i < self.search_dirs.len()
            invariant
                i <= self.search_dirs@.len(),
                names@.map_values(|n: String| n@) == ns,
                ns == names_of(self.spec_base(), self.spec_formats()),
                out@.map_values(|p: String| p@) == candidates_of(
                    self.spec_base(),
                    self.spec_dirs().subrange(0, i as int),
                    self.spec_formats(),
                ),
            decreases self.search_dirs@.len() - i,
        {
            let dir = self.search_dirs[i].as_str();
            let ghost before = out@.map_values(|p: String| p@);
            let mut j: usize = 0;
            while j < names.len()
                invariant
                    j <= names@.len(),
                    names@.map_values(|n: String| n@) == ns,
                    dir@ == self.spec_dirs()[i as int],
                    out@.map_values(|p: String| p@) == before + ns.subrange(0, j as int).map_values(
                        |n: Seq<char>| joined_path(dir@, n),
                    ),
                decreases names@.len() - j,
            {
                let p = join_path(dir, names[j].as_str());
                let ghost prev = out@.map_values(|p: String| p@);
                out.push(p);
                assert(out@.map_values(|p: String| p@) =~= prev.push(p@));
                assert(ns.subrange(0, j + 1).map_values(|n: Seq<char>| joined_path(dir@, n))
                    =~= ns.subrange(0, j as int).map_values(|n: Seq<char>| joined_path(dir@, n)).push(
                    joined_path(dir@, ns[j as int]),
                ));
                j = j + 1;
            }
            assert(ns.subrange(0, names@.len() as int) =~= ns);
            assert(self.spec_dirs().subrange(0, i + 1).drop_last() =~= self.spec_dirs().subrange(
                0,
                i as int,
            ));
            i = i + 1;
        }
        assert(self.spec_dirs().subrange(0, self.search_dirs@.len() as int) =~= self.spec_dirs());
        out
    }
}

/// Configuration layered from several files, later ones replacing earlier
/// ones; the files themselves are read by the application.
#[derive(Debug)]
pub struct LayeredConfigBuilder<T> {
    base: T,
    loaded_from: Vec<String>,
}

impl<T: Default> LayeredConfigBuilder<T> {
    /// A builder starting from the default configuration.
    pub fn new() -> (r: Self)
        ensures
            r.spec_loaded() == Seq::<Seq<char>>::empty(),
    {
        let r = LayeredConfigBuilder { base: T::default(), loaded_from: Vec::new() };
        assert(r.spec_loaded() =~= Seq::<Seq<char>>::empty());
        r
    }
}

impl<T> LayeredConfigBuilder<T> {
    /// The configuration so far.
    pub closed spec fn spec_base(&self) -> T {
        self.base
    }

    /// The files loaded so far, in order.
    pub closed spec fn spec_loaded(&self) -> Seq<Seq<char>> {
        self.loaded_from@.map_values(|p: String| p@)
    }

    /// A builder starting from the given configuration.
    pub fn with_base(base: T) -> (r: Self)
        ensures
            r.spec_base() == base,
            r.spec_loaded() == Seq::<Seq<char>>::empty(),
    {
        let r = LayeredConfigBuilder { base, loaded_from: Vec::new() };
        assert(r.spec_loaded() =~= Seq::<Seq<char>>::empty());
        r
    }

    /// Takes the configuration loaded from `path` as the new layer on top.
    pub fn layer(self, config: T, path: &str) -> (r: Self)
        ensures
            r.spec_base() == config,
            r.spec_loaded() == self.spec_loaded().push(path@),
    {
        let LayeredConfigBuilder { base: _, loaded_from } = self;
        let mut loaded_from = loaded_from;
        loaded_from.push(path.to_owned());
        let r = LayeredConfigBuilder { base: config, loaded_from };
        assert(r.spec_loaded() =~= self.spec_loaded().push(path@));
        r
    }

    /// The files that were loaded, in order.
    pub fn loaded_from(&self) -> (r: &[String])
        ensures
            r@.map_values(|p: String| p@) == self.spec_loaded(),
    {
        self.loaded_from.as_slice()
    }

    /// The final configuration.
    pub fn build(self) -> (r: T)
        ensures
            r == self.spec_base(),
    {
        self.base
    }
}

} // verus!
