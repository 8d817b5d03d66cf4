//! The build-time code-generation pipeline.
//!
//! A linear run of five gated stages: provision the toolchain and
//! sources, configure the native build, compile the artifact and the
//! shim, generate the declaration set, and emit it.  A stage's
//! failure is fatal and keeps the failing tool's output; nothing runs
//! past it.  The decisions live here, verified; running the external
//! tools is the caller's part.

use vstd::prelude::*;

verus! {

/// Whether `s` starts with `p`.
pub open spec fn starts_with(s: Seq<char>, p: Seq<char>) -> bool {
    s.len() >= p.len() && s.subrange(0, p.len() as int) == p
}

/// Whether `s` ends with `p`.
pub open spec fn ends_with(s: Seq<char>, p: Seq<char>) -> bool {
    s.len() >= p.len() && s.subrange(s.len() - p.len(), s.len() as int) == p
}

/// Whether two strings hold the same characters.
pub fn str_eq(a: &str, b: &str) -> (r: bool)
    ensures
        r == (a@ == b@),
{
    let an = a.unicode_len();
    let bn = b.unicode_len();
    if an != bn {
        proof {
            assert(a@ != b@);
        }
        return false;
    }
    let mut i: usize = 0;
    while i < an
        invariant
            an == a@.len(),
            a@.len() == b@.len(),
            i <= an,
            forall|j: int| 0 <= j < i ==> a@[j] == b@[j],
        decreases an - i,
    {
        if a.get_char(i) != b.get_char(i) {
            return false;
        }
        i = i + 1;
    }
    proof {
        assert(a@ =~= b@);
    }
    true
}

/// Whether the string starts with the prefix.
pub fn str_starts_with(s: &str, p: &str) -> (r: bool)
    ensures
        r == starts_with(s@, p@),
{
    let sn = s.unicode_len();
    let pn = p.unicode_len();
    if pn > sn {
        return false;
    }
    let head = s.substring_char(0, pn);
    str_eq(head, p)
}

/// Whether the string ends with the suffix.
pub fn str_ends_with(s: &str, p: &str) -> (r: bool)
    ensures
        r == ends_with(s@, p@),
{
    let sn = s.unicode_len();
    let pn = p.unicode_len();
    if pn > sn {
        return false;
    }
    let tail = s.substring_char(sn - pn, sn);
    str_eq(tail, p)
}

/// The pieces of `s` cut at every separator.
pub open spec fn split_at_sep(s: Seq<char>, sep: char) -> Seq<Seq<char>>
    decreases s.len(),
{
    if s.len() == 0 {
        seq![Seq::empty()]
    } else if s[0] == sep {
        seq![Seq::<char>::empty()] + split_at_sep(s.skip(1), sep)
    } else {
        let rest = split_at_sep(s.skip(1), sep);
        seq![seq![s[0]] + rest[0]] + rest.skip(1)
    }
}

/// Cuts a string at every separator.
pub fn split_string(s: &str, sep: char) -> (r: Vec<String>)
    ensures
        r@.len() == split_at_sep(s@, sep).len(),
        forall|i: int| 0 <= i < r@.len() ==> #[trigger] r@[i]@ == split_at_sep(s@, sep)[i],
{
    let n = s.unicode_len();
    let mut out: Vec<String> = Vec::new();
    let mut start: usize = 0;
    let mut i: usize = 0;
    proof {
        assert(s@.skip(0) =~= s@);
        assert(s@.subrange(0, 0) =~= Seq::<char>::empty());
        assert(s@.subrange(0, 0) + split_at_sep(s@, sep)[0] =~= split_at_sep(s@, sep)[0]);
    }
    while i < n
        invariant
            n == s@.len(),
            start <= i <= n,
            ({
                let done = split_at_sep(s@, sep);
                let rest = split_at_sep(s@.skip(i as int), sep);
                &&& out@.len() + rest.len() == done.len()
                &&& forall|j: int| 0 <= j < out@.len() ==> #[trigger] out@[j]@ == done[j]
                &&& s@.subrange(start as int, i as int) + rest[0] == done[out@.len() as int]
                &&& forall|j: int|
                    1 <= j < rest.len() ==> #[trigger] rest[j] == done[out@.len() + j]
            }),
        decreases n - i,
    {
        let c = s.get_char(i);
        proof {
            assert(s@.skip(i as int).skip(1) =~= s@.skip(i as int + 1));
            assert(s@.skip(i as int)[0] == s@[i as int]);
        }
        if c == sep {
            proof {
                let done = split_at_sep(s@, sep);
                let rest = split_at_sep(s@.skip(i as int), sep);
                let rest1 = split_at_sep(s@.skip(i as int + 1), sep);
                assert(rest =~~= seq![Seq::<char>::empty()] + rest1);
                assert(rest[0] =~= Seq::<char>::empty());
                assert(s@.subrange(start as int, i as int) + rest[0] =~= s@.subrange(
                    start as int,
                    i as int,
                ));
                assert(done[out@.len() as int] =~= s@.subrange(start as int, i as int));
                assert(forall|j: int| 0 <= j < rest1.len() ==> rest1[j] == rest[j + 1]);
                assert(s@.subrange(i as int + 1, i as int + 1) =~= Seq::<char>::empty());
                assert(s@.subrange(i as int + 1, i as int + 1) + rest1[0] =~= rest1[0]);
            }
            let piece = String::from_str(s.substring_char(start, i));
            out.push(piece);
            start = i + 1;
        } else {
            proof {
                let done = split_at_sep(s@, sep);
                let rest = split_at_sep(s@.skip(i as int), sep);
                let rest1 = split_at_sep(s@.skip(i as int + 1), sep);
                assert(rest =~~= seq![seq![s@[i as int]] + rest1[0]] + rest1.skip(1));
                assert(rest[0] =~= seq![s@[i as int]] + rest1[0]);
                assert(forall|j: int| 1 <= j < rest1.len() ==> rest1[j] == rest[j]);
                assert(s@.subrange(start as int, i as int + 1) =~= s@.subrange(
                    start as int,
                    i as int,
                ) + seq![s@[i as int]]);
                assert(s@.subrange(start as int, i as int + 1) + rest1[0] =~= done[out@.len() as int]);
            }
        }
        i = i + 1;
    }
    proof {
        assert(s@.skip(n as int) =~= Seq::<char>::empty());
        assert(s@.subrange(start as int, n as int) + split_at_sep(s@.skip(n as int), sep)[0]
            =~= s@.subrange(start as int, n as int));
    }
    let piece = String::from_str(s.substring_char(start, n));
    out.push(piece);
    out
}

/// A build target cut into its tuple: architecture, vendor,
/// operating system, and environment where the triple names one.
pub struct Target {
    /// The architecture part.
    pub arch: String,
    /// The vendor part.
    pub vendor: String,
    /// The operating-system part.
    pub os: String,
    /// The environment part, where the target names one.
    pub abi: Option<String>,
}

/// Parses a target string of dash-separated parts.  Fewer than three
/// parts fail the parse — and with it the build.
pub fn parse_target(target: &str) -> (r: Option<Target>)
    ensures
        r.is_some() <==> split_at_sep(target@, '-').len() >= 3,
        r.is_some() ==> ({
            let parts = split_at_sep(target@, '-');
            &&& r.unwrap().arch@ == parts[0]
            &&& r.unwrap().vendor@ == parts[1]
            &&& r.unwrap().os@ == parts[2]
            &&& (r.unwrap().abi is Some <==> parts.len() > 3)
            &&& parts.len() > 3 ==> r.unwrap().abi.unwrap()@ == parts[3]
        }),
{
    let mut parts = split_string(target, '-');
    if parts.len() < 3 {
        return None;
    }
    let abi: Option<String> = if parts.len() > 3 {
        Some(take_string(&parts, 3))
    } else {
        None
    };
    let os = take_string(&parts, 2);
    let vendor = take_string(&parts, 1);
    let arch = take_string(&parts, 0);
    Some(Target { arch, vendor, os, abi })
}

/// Copies one string out of a vector.
fn take_string(v: &Vec<String>, i: usize) -> (r: String)
    requires
        i < v@.len(),
    ensures
        r@ == v@[i as int]@,
{
    v[i].clone()
}

/// The system libraries a recognized target links, and whether the
/// target forces building the optional native libraries.
pub struct Linkage {
    /// The libraries to link, in order.
    pub libs: Vec<String>,
    /// Whether the optional native libraries must be built anyway.
    pub force_build_libs: bool,
}

/// Whether the target is the supported GNU/Linux tuple.
pub open spec fn is_linux_gnu(t: Target) -> bool {
    t.vendor@ == "unknown"@ && t.os@ == "linux"@ && t.abi is Some && t.abi.unwrap()@ == "gnu"@
}

/// Whether the target is the supported Apple tuple.
pub open spec fn is_apple_darwin(t: Target) -> bool {
    t.vendor@ == "apple"@ && t.os@ == "darwin"@
}

/// Whether the target is the supported Windows tuple.
pub open spec fn is_windows_msvc(t: Target) -> bool {
    t.os@ == "windows"@ && t.abi is Some && t.abi.unwrap()@ == "msvc"@
}

/// The libraries the GNU/Linux tuple links.
pub open spec fn linux_libs() -> Seq<Seq<char>> {
    seq!["stdc++"@, "bz2"@, "GL"@, "fontconfig"@, "freetype"@]
}

/// The libraries the Apple tuple links.
pub open spec fn apple_libs() -> Seq<Seq<char>> {
    seq!["c++"@, "framework=OpenGL"@, "framework=ApplicationServices"@]
}

/// The libraries the Windows tuple links.
pub open spec fn windows_libs() -> Seq<Seq<char>> {
    seq!["usp10"@, "ole32"@, "user32"@, "gdi32"@, "fontsub"@, "opengl32"@]
}

/// The views of a list of strings.
pub open spec fn string_views(v: Seq<String>) -> Seq<Seq<char>> {
    v.map_values(|s: String| s@)
}

/// Resolves the system libraries a target links.  An unrecognized
/// tuple resolves to nothing, which fails the build loudly rather
/// than linking short.
pub fn link_libs(t: &Target) -> (r: Option<Linkage>)
    ensures
        r.is_some() <==> (is_linux_gnu(*t) || is_apple_darwin(*t) || is_windows_msvc(*t)),
        r.is_some() && is_linux_gnu(*t) ==> string_views(r.unwrap().libs@) == linux_libs() && !r
            .unwrap().force_build_libs,
        r.is_some() && is_apple_darwin(*t) && !is_linux_gnu(*t) ==> string_views(r.unwrap().libs@)
            == apple_libs() && r.unwrap().force_build_libs,
        r.is_some() && is_windows_msvc(*t) && !is_linux_gnu(*t) && !is_apple_darwin(*t)
            ==> string_views(r.unwrap().libs@) == windows_libs() && !r.unwrap().force_build_libs,
{
    let abi_gnu = match &t.abi {
        Some(a) => str_eq(a.as_str(), "gnu"),
        None => false,
    };
    let abi_msvc = match &t.abi {
        Some(a) => str_eq(a.as_str(), "msvc"),
        None => false,
    };
    if str_eq(t.vendor.as_str(), "unknown") && str_eq(t.os.as_str(), "linux") && abi_gnu {
        let mut libs: Vec<String> = Vec::new();
        libs.push(String::from_str("stdc++"));
        libs.push(String::from_str("bz2"));
        libs.push(String::from_str("GL"));
        libs.push(String::from_str("fontconfig"));
        libs.push(String::from_str("freetype"));
        proof {
            assert(string_views(libs@) =~= linux_libs());
        }
        Some(Linkage { libs, force_build_libs: false })
    } else if str_eq(t.vendor.as_str(), "apple") && str_eq(t.os.as_str(), "darwin") {
        let mut libs: Vec<String> = Vec::new();
        libs.push(String::from_str("c++"));
        libs.push(String::from_str("framework=OpenGL"));
        libs.push(String::from_str("framework=ApplicationServices"));
        proof {
            assert(string_views(libs@) =~= apple_libs());
        }
        Some(Linkage { libs, force_build_libs: true })
    } else if str_eq(t.os.as_str(), "windows") && abi_msvc {
        let mut libs: Vec<String> = Vec::new();
        libs.push(String::from_str("usp10"));
        libs.push(String::from_str("ole32"));
        libs.push(String::from_str("user32"));
        libs.push(String::from_str("gdi32"));
        libs.push(String::from_str("fontsub"));
        libs.push(String::from_str("opengl32"));
        proof {
            assert(string_views(libs@) =~= windows_libs());
        }
        Some(Linkage { libs, force_build_libs: false })
    } else {
        None
    }
}


/// The build configuration the pipeline computes its native build
/// arguments from.
#[derive(Clone, Copy, PartialEq, Eq, Structural, Debug)]
pub struct BuildConfig {
    /// Build the engine in its release configuration.
    pub skia_release: bool,
    /// Keep inline functions out of line, trading speed for linkable
    /// symbols.
    pub keep_inline_functions: bool,
    /// Build the optional graphics-interface subsystem.
    pub vulkan: bool,
    /// Build the vector-markup subsystem.
    pub svg: bool,
    /// Build the animation module.
    pub animation: bool,
    /// Support the raw-photo file format.
    pub dng: bool,
    /// Build the particles module.
    pub particles: bool,
    /// The build host runs Windows.
    pub on_windows: bool,
    /// The target forces building the optional native libraries.
    pub force_build_libs: bool,
}

/// The generator's word for an enabled flag.
pub open spec fn yes() -> Seq<char> {
    "true"@
}

/// The generator's word for a disabled flag.
pub open spec fn no() -> Seq<char> {
    "false"@
}

/// A flag's word.
pub open spec fn flag_word(b: bool) -> Seq<char> {
    if b {
        yes()
    } else {
        no()
    }
}

/// A value wrapped in quotation marks.
pub open spec fn quoted(s: Seq<char>) -> Seq<char> {
    seq!['"'] + s + seq!['"']
}

/// The pieces joined with a separator between each two.
pub open spec fn join_with(xs: Seq<Seq<char>>, sep: Seq<char>) -> Seq<char>
    decreases xs.len(),
{
    if xs.len() == 0 {
        Seq::empty()
    } else if xs.len() == 1 {
        xs[0]
    } else {
        xs[0] + sep + join_with(xs.skip(1), sep)
    }
}

/// The always-present native build arguments.
pub open spec fn base_args(c: BuildConfig) -> Seq<(Seq<char>, Seq<char>)> {
    seq![
        ("is_official_build"@, flag_word(c.skia_release)),
        ("skia_use_expat"@, flag_word(c.svg)),
        ("skia_use_system_expat"@, no()),
        ("skia_use_icu"@, no()),
        ("skia_use_system_libjpeg_turbo"@, no()),
        ("skia_use_system_libpng"@, no()),
        ("skia_use_libwebp"@, no()),
        ("skia_use_system_zlib"@, no()),
        ("skia_enable_skottie"@, flag_word(c.animation || c.force_build_libs)),
        ("skia_use_xps"@, no()),
        ("skia_use_dng_sdk"@, flag_word(c.dng)),
        ("skia_enable_particles"@, flag_word(c.particles || c.force_build_libs)),
        ("cc"@, quoted("clang"@)),
        ("cxx"@, quoted("clang++"@)),
    ]
}

/// The arguments that trim a debug build.
pub open spec fn debug_args(c: BuildConfig) -> Seq<(Seq<char>, Seq<char>)> {
    if c.skia_release {
        Seq::empty()
    } else {
        seq![
            ("skia_enable_atlas_text"@, no()),
            ("skia_enable_spirv_validation"@, no()),
            ("skia_enable_tools"@, no()),
            ("skia_enable_vulkan_debug_layers"@, no()),
            ("skia_use_libheif"@, no()),
            ("skia_use_lua"@, no()),
        ]
    }
}

/// The arguments the optional graphics-interface subsystem adds.
pub open spec fn vulkan_args(c: BuildConfig) -> Seq<(Seq<char>, Seq<char>)> {
    if c.vulkan {
        seq![("skia_use_vulkan"@, yes()), ("skia_enable_spirv_validation"@, no())]
    } else {
        Seq::empty()
    }
}

/// The arguments a Windows host adds.
pub open spec fn windows_args(c: BuildConfig) -> Seq<(Seq<char>, Seq<char>)> {
    if c.on_windows {
        seq![("clang_win"@, quoted("C:/Program Files/LLVM"@))]
    } else {
        Seq::empty()
    }
}

/// The extra compiler flags the configuration asks for.
pub open spec fn extra_cflags(c: BuildConfig) -> Seq<Seq<char>> {
    (if c.on_windows {
        seq!["/MD"@]
    } else {
        Seq::empty()
    }) + (if c.keep_inline_functions {
        if c.on_windows {
            seq!["/Ob0"@]
        } else {
            seq!["-fno-inline-functions"@]
        }
    } else {
        Seq::empty()
    })
}

/// The extra-compiler-flags argument, present only when there are
/// flags: each flag quoted, joined with commas, in brackets.
pub open spec fn cflags_args(c: BuildConfig) -> Seq<(Seq<char>, Seq<char>)> {
    if extra_cflags(c).len() == 0 {
        Seq::empty()
    } else {
        seq![
            (
                "extra_cflags"@,
                seq!['['] + join_with(
                    extra_cflags(c).map_values(|f: Seq<char>| quoted(f)),
                    ","@,
                ) + seq![']'],
            ),
        ]
    }
}

/// Every native build argument of a configuration, in order.
pub open spec fn gn_args_spec(c: BuildConfig) -> Seq<(Seq<char>, Seq<char>)> {
    base_args(c) + debug_args(c) + vulkan_args(c) + windows_args(c) + cflags_args(c)
}

/// The views of a list of argument pairs.
pub open spec fn pair_views(v: Seq<(String, String)>) -> Seq<(Seq<char>, Seq<char>)> {
    v.map_values(|p: (String, String)| (p.0@, p.1@))
}

/// A flag's word, as a string.
fn flag_string(b: bool) -> (r: String)
    ensures
        r@ == flag_word(b),
{
    if b {
        String::from_str("true")
    } else {
        String::from_str("false")
    }
}

/// Wraps a value in quotation marks.
fn quote_string(s: &str) -> (r: String)
    ensures
        r@ == quoted(s@),
{
    let mut out = String::from_str("\"");
    out.append(s);
    out.append("\"");
    proof {
        reveal_strlit("\"");
        assert("\""@ =~= seq!['"']);
        assert(out@ =~= quoted(s@));
    }
    out
}

/// Computes the native build arguments of a configuration.
#[verifier::rlimit(100)]
#[verifier::spinoff_prover]
pub fn gn_args(c: &BuildConfig) -> (r: Vec<(String, String)>)
    ensures
        pair_views(r@) == gn_args_spec(*c),
{
    let mut args: Vec<(String, String)> = Vec::new();
    args.push((String::from_str("is_official_build"), flag_string(c.skia_release)));
    args.push((String::from_str("skia_use_expat"), flag_string(c.svg)));
    args.push((String::from_str("skia_use_system_expat"), flag_string(false)));
    args.push((String::from_str("skia_use_icu"), flag_string(false)));
    args.push((String::from_str("skia_use_system_libjpeg_turbo"), flag_string(false)));
    args.push((String::from_str("skia_use_system_libpng"), flag_string(false)));
    args.push((String::from_str("skia_use_libwebp"), flag_string(false)));
    args.push((String::from_str("skia_use_system_zlib"), flag_string(false)));
    args.push(
        (String::from_str("skia_enable_skottie"), flag_string(c.animation || c.force_build_libs)),
    );
    args.push((String::from_str("skia_use_xps"), flag_string(false)));
    args.push((String::from_str("skia_use_dng_sdk"), flag_string(c.dng)));
    args.push(
        (String::from_str("skia_enable_particles"), flag_string(c.particles || c.force_build_libs)),
    );
    args.push((String::from_str("cc"), quote_string("clang")));
    args.push((String::from_str("cxx"), quote_string("clang++")));
    if !c.skia_release {
        args.push((String::from_str("skia_enable_atlas_text"), flag_string(false)));
        args.push((String::from_str("skia_enable_spirv_validation"), flag_string(false)));
        args.push((String::from_str("skia_enable_tools"), flag_string(false)));
        args.push((String::from_str("skia_enable_vulkan_debug_layers"), flag_string(false)));
        args.push((String::from_str("skia_use_libheif"), flag_string(false)));
        args.push((String::from_str("skia_use_lua"), flag_string(false)));
    }
    if c.vulkan {
        args.push((String::from_str("skia_use_vulkan"), flag_string(true)));
        args.push((String::from_str("skia_enable_spirv_validation"), flag_string(false)));
    }
    if c.on_windows {
        args.push((String::from_str("clang_win"), quote_string("C:/Program Files/LLVM")));
    }
    let mut flags: Vec<String> = Vec::new();
    if c.on_windows {
        flags.push(String::from_str("/MD"));
    }
    if c.keep_inline_functions {
        if c.on_windows {
            flags.push(String::from_str("/Ob0"));
        } else {
            flags.push(String::from_str("-fno-inline-functions"));
        }
    }
    proof {
        assert(string_views(flags@) =~= extra_cflags(*c));
    }
    if flags.len() > 0 {
        let mut value = String::from_str("[");
        let mut i: usize = 0;
        proof {
            reveal_strlit("[");
            assert("["@ =~= seq!['[']);
            assert(value@ =~= seq!['['] + joined_prefix(string_views(flags@), 0));
        }
        while i < flags.len()
            invariant
                flags@.len() > 0,
                i <= flags@.len(),
                string_views(flags@) == extra_cflags(*c),
                value@ == seq!['['] + joined_prefix(string_views(flags@), i as int),
            decreases flags@.len() - i,
        {
            if i > 0 {
                value.append(",");
                proof {
                    reveal_strlit(",");
                }
            }
            let q = quote_string(flags[i].as_str());
            value.append(q.as_str());
            proof {
                assert(value@ =~= seq!['['] + joined_prefix(
                    string_views(flags@),
                    i as int + 1,
                ));
            }
            i = i + 1;
        }
        value.append("]");
        proof {
            reveal_strlit("]");
            assert("]"@ =~= seq![']']);
            lemma_joined_prefix_full(string_views(flags@));
            assert(value@ =~= seq!['['] + join_with(
                string_views(flags@).map_values(|f: Seq<char>| quoted(f)),
                ","@,
            ) + seq![']']);
        }
        args.push((String::from_str("extra_cflags"), value));
    }
    proof {
        assert(pair_views(args@) =~= gn_args_spec(*c));
    }
    args
}

/// The first `i` quoted flags joined with commas.
pub open spec fn joined_prefix(flags: Seq<Seq<char>>, i: int) -> Seq<char>
    decreases i,
{
    if i <= 0 {
        Seq::empty()
    } else if i == 1 {
        quoted(flags[0])
    } else {
        joined_prefix(flags, i - 1) + ","@ + quoted(flags[i - 1])
    }
}

/// Joining all quoted flags is the full prefix.
proof fn lemma_joined_prefix_full(flags: Seq<Seq<char>>)
    ensures
        joined_prefix(flags, flags.len() as int) == join_with(
            flags.map_values(|f: Seq<char>| quoted(f)),
            ","@,
        ),
    decreases flags.len(),
{
    lemma_joined_prefix_as_join(flags, flags.len() as int);
    assert(flags.subrange(0, flags.len() as int) =~= flags);
}

/// The joined prefix agrees with the recursive join on every prefix
/// taken from the left.
proof fn lemma_joined_prefix_as_join(flags: Seq<Seq<char>>, i: int)
    requires
        0 <= i <= flags.len(),
    ensures
        joined_prefix(flags, i) == join_with(
            flags.subrange(0, i).map_values(|f: Seq<char>| quoted(f)),
            ","@,
        ),
    decreases i,
{
    let q = |f: Seq<char>| quoted(f);
    if i <= 0 {
        assert(flags.subrange(0, 0).map_values(q) =~= Seq::<Seq<char>>::empty());
    } else if i == 1 {
        assert(flags.subrange(0, 1).map_values(q) =~= seq![quoted(flags[0])]);
    } else {
        lemma_joined_prefix_as_join(flags, i - 1);
        lemma_join_snoc(flags.subrange(0, i - 1).map_values(q), quoted(flags[i - 1]));
        assert(flags.subrange(0, i).map_values(q) =~= flags.subrange(0, i - 1).map_values(q).push(
            quoted(flags[i - 1]),
        ));
    }
}

/// Joining after adding one piece at the end appends a separator and
/// the piece.
proof fn lemma_join_snoc(xs: Seq<Seq<char>>, x: Seq<char>)
    requires
        xs.len() >= 1,
    ensures
        join_with(xs.push(x), ","@) == join_with(xs, ","@) + ","@ + x,
    decreases xs.len(),
{
    if xs.len() == 1 {
        let ys = xs.push(x);
        assert(ys =~~= seq![xs[0], x]);
        assert(ys.skip(1) =~~= seq![x]);
        assert(join_with(ys.skip(1), ","@) == x);
        assert(join_with(ys, ","@) =~= ys[0] + ","@ + join_with(ys.skip(1), ","@));
        assert(join_with(xs.push(x), ","@) =~= xs[0] + ","@ + x);
    } else {
        lemma_join_snoc(xs.skip(1), x);
        assert(xs.push(x).skip(1) =~= xs.skip(1).push(x));
        assert(join_with(xs.push(x), ","@) =~= join_with(xs, ","@) + ","@ + x);
    }
}


/// What a scanned declaration is.
#[derive(Clone, Copy, PartialEq, Eq, Structural, Debug)]
pub enum DeclKind {
    /// A callable entry point.
    Function,
    /// A type.
    Type,
    /// A variable or constant.
    Var,
}

/// One declaration the scanner found in the shim header or the
/// native header tree.
pub struct Decl {
    /// The declared symbol's name.
    pub name: String,
    /// What the symbol is.
    pub kind: DeclKind,
}

/// Whether a function name passes the allow filter: shim entry
/// points by their prefix, plus the hand-kept list of plain-callable
/// engine functions.
pub open spec fn function_allowed(name: Seq<char>) -> bool {
    ||| starts_with(name, "C_"@)
    ||| name == "SkColorTypeBytesPerPixel"@
    ||| name == "SkColorTypeIsAlwaysOpaque"@
    ||| name == "SkColorTypeValidateAlphaType"@
    ||| name == "SkRGBToHSV"@
    ||| name == "SkColorToHSV"@
    ||| name == "SkHSVToColor"@
    ||| name == "SkPreMultiplyARGB"@
    ||| name == "SkPreMultiplyColor"@
    ||| name == "SkBlendMode_Name"@
    ||| name == "Op"@
    ||| name == "Simplify"@
    ||| name == "TightBounds"@
    ||| name == "AsWinding"@
}

/// Whether a function name is on the short deny list of symbols
/// known to break generation.
pub open spec fn function_denied(name: Seq<char>) -> bool {
    name == "SkColorFilter_asComponentTable"@
}

/// Whether a type name passes the allow filter.
pub open spec fn type_allowed(name: Seq<char>) -> bool {
    ||| name == "SkAutoCanvasRestore"@
    ||| name == "SkColorSpacePrimaries"@
    ||| name == "SkContourMeasure"@
    ||| name == "SkContourMeasureIter"@
    ||| name == "SkCubicMap"@
    ||| name == "SkDocument"@
    ||| name == "SkDrawLooper"@
    ||| name == "SkDynamicMemoryWStream"@
    ||| name == "SkStream"@
    ||| name == "SkSVGDOM"@
    ||| name == "SkStreamAsset"@
    ||| name == "SkPathMeasure"@
    ||| name == "SkVector4"@
    ||| name == "SkPictureRecorder"@
    ||| name == "SkPath1DPathEffect"@
    ||| name == "SkLine2DPathEffect"@
    ||| name == "SkPath2DPathEffect"@
    ||| name == "SkCornerPathEffect"@
    ||| name == "SkDashPathEffect"@
    ||| name == "SkDiscretePathEffect"@
    ||| name == "SkGradientShader"@
    ||| name == "SkLayerDrawLooper_Bits"@
    ||| name == "SkPerlinNoiseShader"@
    ||| name == "SkTableColorFilter"@
    ||| name == "SkPathOp"@
    ||| name == "SkOpBuilder"@
    ||| name == "GrGLBackendState"@
    ||| name == "GrVkDrawableInfo"@
    ||| name == "GrVkExtensionFlags"@
    ||| name == "GrVkFeatureFlags"@
}

/// Whether a variable name passes the allow filter.
pub open spec fn var_allowed(name: Seq<char>) -> bool {
    starts_with(name, "SK_Color"@) || name == "kAll_GrBackendState"@
}

/// Whether a declaration is emitted at all.
pub open spec fn decl_emitted(name: Seq<char>, kind: DeclKind) -> bool {
    match kind {
        DeclKind::Function => function_allowed(name) && !function_denied(name),
        DeclKind::Type => type_allowed(name),
        DeclKind::Var => var_allowed(name),
    }
}

/// Whether an emitted enumeration is represented as plain integer
/// constants: bit-flag sets are open, combinable values, never
/// closed-choice enumerations.
pub open spec fn constified(name: Seq<char>) -> bool {
    ||| ends_with(name, "Mask"@)
    ||| ends_with(name, "Flags"@)
    ||| ends_with(name, "Bits"@)
    ||| name == "SkCanvas_SaveLayerFlagsSet"@
    ||| name == "GrVkAlloc_Flag"@
    ||| name == "GrGLBackendState"@
}

/// The name views of a declaration list.
pub open spec fn decl_views(ds: Seq<Decl>) -> Seq<(Seq<char>, DeclKind)> {
    ds.map_values(|d: Decl| (d.name@, d.kind))
}

/// The declarations that survive the filter, in order.
pub open spec fn filtered_decls(ds: Seq<(Seq<char>, DeclKind)>) -> Seq<(Seq<char>, DeclKind)>
    decreases ds.len(),
{
    if ds.len() == 0 {
        Seq::empty()
    } else {
        (if decl_emitted(ds[0].0, ds[0].1) {
            seq![ds[0]]
        } else {
            Seq::empty()
        }) + filtered_decls(ds.skip(1))
    }
}

/// The generated declaration text: one line per surviving
/// declaration, constified enumerations marked.
pub open spec fn rendered_decls(ds: Seq<(Seq<char>, DeclKind)>) -> Seq<char>
    decreases ds.len(),
{
    if ds.len() == 0 {
        Seq::empty()
    } else {
        (if constified(ds[0].0) {
            "const "@
        } else {
            Seq::empty()
        }) + ds[0].0 + seq!['\n'] + rendered_decls(ds.skip(1))
    }
}

/// Whether one declaration is emitted.
pub fn decl_passes(d: &Decl) -> (r: bool)
    ensures
        r == decl_emitted(d.name@, d.kind),
{
    match d.kind {
        DeclKind::Function => {
            let allowed = str_starts_with(d.name.as_str(), "C_") || str_eq(
                d.name.as_str(),
                "SkColorTypeBytesPerPixel",
            ) || str_eq(d.name.as_str(), "SkColorTypeIsAlwaysOpaque") || str_eq(
                d.name.as_str(),
                "SkColorTypeValidateAlphaType",
            ) || str_eq(d.name.as_str(), "SkRGBToHSV") || str_eq(d.name.as_str(), "SkColorToHSV")
                || str_eq(d.name.as_str(), "SkHSVToColor") || str_eq(
                d.name.as_str(),
                "SkPreMultiplyARGB",
            ) || str_eq(d.name.as_str(), "SkPreMultiplyColor") || str_eq(
                d.name.as_str(),
                "SkBlendMode_Name",
            ) || str_eq(d.name.as_str(), "Op") || str_eq(d.name.as_str(), "Simplify") || str_eq(
                d.name.as_str(),
                "TightBounds",
            ) || str_eq(d.name.as_str(), "AsWinding");
            let denied = str_eq(d.name.as_str(), "SkColorFilter_asComponentTable");
            allowed && !denied
        },
        DeclKind::Type => {
            str_eq(d.name.as_str(), "SkAutoCanvasRestore") || str_eq(
                d.name.as_str(),
                "SkColorSpacePrimaries",
            ) || str_eq(d.name.as_str(), "SkContourMeasure") || str_eq(
                d.name.as_str(),
                "SkContourMeasureIter",
            ) || str_eq(d.name.as_str(), "SkCubicMap") || str_eq(d.name.as_str(), "SkDocument")
                || str_eq(d.name.as_str(), "SkDrawLooper") || str_eq(
                d.name.as_str(),
                "SkDynamicMemoryWStream",
            ) || str_eq(d.name.as_str(), "SkStream") || str_eq(d.name.as_str(), "SkSVGDOM")
                || str_eq(d.name.as_str(), "SkStreamAsset") || str_eq(
                d.name.as_str(),
                "SkPathMeasure",
            ) || str_eq(d.name.as_str(), "SkVector4") || str_eq(
                d.name.as_str(),
                "SkPictureRecorder",
            ) || str_eq(d.name.as_str(), "SkPath1DPathEffect") || str_eq(
                d.name.as_str(),
                "SkLine2DPathEffect",
            ) || str_eq(d.name.as_str(), "SkPath2DPathEffect") || str_eq(
                d.name.as_str(),
                "SkCornerPathEffect",
            ) || str_eq(d.name.as_str(), "SkDashPathEffect") || str_eq(
                d.name.as_str(),
                "SkDiscretePathEffect",
            ) || str_eq(d.name.as_str(), "SkGradientShader") || str_eq(
                d.name.as_str(),
                "SkLayerDrawLooper_Bits",
            ) || str_eq(d.name.as_str(), "SkPerlinNoiseShader") || str_eq(
                d.name.as_str(),
                "SkTableColorFilter",
            ) || str_eq(d.name.as_str(), "SkPathOp") || str_eq(d.name.as_str(), "SkOpBuilder")
                || str_eq(d.name.as_str(), "GrGLBackendState") || str_eq(
                d.name.as_str(),
                "GrVkDrawableInfo",
            ) || str_eq(d.name.as_str(), "GrVkExtensionFlags") || str_eq(
                d.name.as_str(),
                "GrVkFeatureFlags",
            )
        },
        DeclKind::Var => {
            str_starts_with(d.name.as_str(), "SK_Color") || str_eq(
                d.name.as_str(),
                "kAll_GrBackendState",
            )
        },
    }
}

/// Renders the generated declaration text from the scanned
/// declarations: filters them, then writes one line per survivor.
pub fn generate_text(decls: &Vec<Decl>) -> (r: String)
    ensures
        r@ == rendered_decls(filtered_decls(decl_views(decls@))),
{
    let mut out = String::new();
    let mut i: usize = 0;
    proof {
        assert(decl_views(decls@).skip(0) =~= decl_views(decls@));
        assert(out@ + rendered_decls(filtered_decls(decl_views(decls@))) =~= rendered_decls(
            filtered_decls(decl_views(decls@)),
        ));
    }
    while i < decls.len()
        invariant
            i <= decls@.len(),
            out@ + rendered_decls(filtered_decls(decl_views(decls@).skip(i as int)))
                == rendered_decls(filtered_decls(decl_views(decls@))),
        decreases decls@.len() - i,
    {
        let d = &decls[i];
        proof {
            assert(decl_views(decls@).skip(i as int).skip(1) =~= decl_views(decls@).skip(
                i as int + 1,
            ));
            assert(decl_views(decls@).skip(i as int)[0] == (d.name@, d.kind));
        }
        if decl_passes(d) {
            proof {
                let views = decl_views(decls@);
                assert(filtered_decls(views.skip(i as int)) =~~= seq![(d.name@, d.kind)]
                    + filtered_decls(views.skip(i as int + 1)));
            }
            if is_constified(d) {
                out.append("const ");
            }
            out.append(d.name.as_str());
            out.append("\n");
            proof {
                reveal_strlit("\n");
                assert("\n"@ =~= seq!['\n']);
                let views = decl_views(decls@);
                let dv = (d.name@, d.kind);
                let fr = filtered_decls(views.skip(i as int + 1));
                assert((seq![dv] + fr).skip(1) =~~= fr);
                assert((seq![dv] + fr)[0] == dv);
                assert(rendered_decls(seq![dv] + fr) =~= (if constified(d.name@) {
                    "const "@
                } else {
                    Seq::<char>::empty()
                }) + d.name@ + seq!['\n'] + rendered_decls(fr));
                assert(out@ + rendered_decls(
                    filtered_decls(decl_views(decls@).skip(i as int + 1)),
                ) =~= rendered_decls(filtered_decls(decl_views(decls@))));
            }
        } else {
            proof {
                let views = decl_views(decls@);
                assert(filtered_decls(views.skip(i as int)) =~~= filtered_decls(
                    views.skip(i as int + 1),
                ));
            }
        }
        i = i + 1;
    }
    proof {
        assert(decl_views(decls@).skip(decls@.len() as int) =~= Seq::<(Seq<char>, DeclKind)>::empty());
        assert(out@ =~= rendered_decls(filtered_decls(decl_views(decls@))));
    }
    out
}

/// Whether a declaration's enumeration is constified.
fn is_constified(d: &Decl) -> (r: bool)
    ensures
        r == constified(d.name@),
{
    str_ends_with(d.name.as_str(), "Mask") || str_ends_with(d.name.as_str(), "Flags")
        || str_ends_with(d.name.as_str(), "Bits") || str_eq(
        d.name.as_str(),
        "SkCanvas_SaveLayerFlagsSet",
    ) || str_eq(d.name.as_str(), "GrVkAlloc_Flag") || str_eq(d.name.as_str(), "GrGLBackendState")
}

/// The declaration generator with its staleness check: it keeps the
/// inputs and output of its last run and reuses the output only when
/// the inputs are identical, so stale output is never reused
/// silently.
pub struct DeclGenerator {
    /// The last run's inputs and output, where a run happened.
    pub cached: Option<(Vec<Decl>, String)>,
}

impl DeclGenerator {
    /// The cache holds only what the last inputs truly generate.
    pub open spec fn wf(self) -> bool {
        self.cached matches Some(c) ==> c.1@ == rendered_decls(filtered_decls(decl_views(c.0@)))
    }

    /// A generator that has not run yet.
    pub fn new() -> (g: DeclGenerator)
        ensures
            g.wf(),
            g.cached is None,
    {
        DeclGenerator { cached: None }
    }

    /// Runs the generation stage: hands back the generated text for
    /// the inputs, from the cache when the inputs are unchanged and
    /// freshly generated otherwise.  Either way the text is exactly
    /// what the inputs generate.
    pub fn run(&mut self, decls: &Vec<Decl>) -> (r: String)
        requires
            old(self).wf(),
        ensures
            final(self).wf(),
            r@ == rendered_decls(filtered_decls(decl_views(decls@))),
            final(self).cached matches Some(c) && decl_views(c.0@) == decl_views(decls@),
    {
        let hit = match &self.cached {
            Some(c) => decls_match(&c.0, decls),
            None => false,
        };
        if hit {
            match &self.cached {
                Some(c) => {
                    proof {
                        assert(filtered_decls(decl_views(self.cached.unwrap().0@)) == filtered_decls(
                            decl_views(decls@),
                        ));
                    }
                    return c.1.clone();
                },
                None => (),
            }
        }
        let out = generate_text(decls);
        let copy = copy_decls(decls);
        self.cached = Some((copy, out.clone()));
        out
    }
}

/// Whether two declaration lists are identical.
fn decls_match(a: &Vec<Decl>, b: &Vec<Decl>) -> (r: bool)
    ensures
        r == (decl_views(a@) == decl_views(b@)),
{
    if a.len() != b.len() {
        proof {
            assert(decl_views(a@).len() != decl_views(b@).len());
        }
        return false;
    }
    let mut i: usize = 0;
    while i < a.len()
        invariant
            a@.len() == b@.len(),
            i <= a@.len(),
            forall|j: int| 0 <= j < i ==> decl_views(a@)[j] == decl_views(b@)[j],
        decreases a@.len() - i,
    {
        let same_kind = match (a[i].kind, b[i].kind) {
            (DeclKind::Function, DeclKind::Function) => true,
            (DeclKind::Type, DeclKind::Type) => true,
            (DeclKind::Var, DeclKind::Var) => true,
            _ => false,
        };
        if !same_kind || !str_eq(a[i].name.as_str(), b[i].name.as_str()) {
            proof {
                assert(decl_views(a@)[i as int] != decl_views(b@)[i as int]);
            }
            return false;
        }
        i = i + 1;
    }
    proof {
        assert(decl_views(a@) =~= decl_views(b@));
    }
    true
}

/// Copies a declaration list.
fn copy_decls(v: &Vec<Decl>) -> (r: Vec<Decl>)
    ensures
        decl_views(r@) == decl_views(v@),
{
    let mut out: Vec<Decl> = Vec::new();
    let mut i: usize = 0;
    while i < v.len()
        invariant
            i <= v@.len(),
            out@.len() == i,
            forall|j: int| 0 <= j < i ==> decl_views(out@)[j] == decl_views(v@)[j],
        decreases v@.len() - i,
    {
        let name = v[i].name.clone();
        let kind = v[i].kind;
        out.push(Decl { name, kind });
        i = i + 1;
    }
    proof {
        assert(decl_views(out@) =~= decl_views(v@));
    }
    out
}

/// Generation is a pure function of its inputs: two runs over
/// identical shim and header declarations produce byte-identical
/// generated output.
pub proof fn lemma_generation_deterministic(a: Seq<Decl>, b: Seq<Decl>)
    requires
        decl_views(a) == decl_views(b),
    ensures
        rendered_decls(filtered_decls(decl_views(a))) == rendered_decls(
            filtered_decls(decl_views(b)),
        ),
{
}

/// The pipeline's stages, in the order they gate one another.
#[derive(Clone, Copy, PartialEq, Eq, Structural, Debug)]
pub enum Stage {
    /// Verify the toolchain and fetch the engine's sources.
    Provision,
    /// Compute the build configuration and run the native generator.
    Configure,
    /// Build the static artifact and compile the shim.
    Compile,
    /// Generate the declaration set from shim and headers.
    GenerateDeclarations,
    /// Write the declarations out and link everything together.
    Emit,
}

/// The stage that follows a stage, if any.
pub open spec fn next_stage(s: Stage) -> Option<Stage> {
    match s {
        Stage::Provision => Some(Stage::Configure),
        Stage::Configure => Some(Stage::Compile),
        Stage::Compile => Some(Stage::GenerateDeclarations),
        Stage::GenerateDeclarations => Some(Stage::Emit),
        Stage::Emit => None,
    }
}

/// Where a pipeline run stands.
pub enum PipelineStatus {
    /// The named stage is next to run.
    Pending(Stage),
    /// Every stage succeeded.
    Done,
    /// The named stage failed; its tool's output is kept verbatim.
    Failed(Stage, String),
}

/// A pipeline run: a linear walk over the stages, with failure
/// fatal.
pub struct Pipeline {
    /// Where the run stands.
    pub status: PipelineStatus,
}

impl Pipeline {
    /// A run about to provision.
    pub fn new() -> (p: Pipeline)
        ensures
            p.status == PipelineStatus::Pending(Stage::Provision),
    {
        Pipeline { status: PipelineStatus::Pending(Stage::Provision) }
    }

    /// The stage to run next, if the run is still alive.
    pub fn current_stage(&self) -> (r: Option<Stage>)
        ensures
            r == (match self.status {
                PipelineStatus::Pending(s) => Some(s),
                _ => Option::<Stage>::None,
            }),
    {
        match &self.status {
            PipelineStatus::Pending(s) => Some(*s),
            _ => None,
        }
    }

    /// Takes a stage's tool result.  Success advances to the next
    /// stage, or finishes after the last; failure is fatal and keeps
    /// the tool's output verbatim.  A finished or failed run never
    /// moves again — there is no retry and no partial success.
    pub fn report(&mut self, exit_code: i32, output: String)
        ensures
            ({
                let before = old(self).status;
                let after = final(self).status;
                &&& (before matches PipelineStatus::Pending(s) ==> ((exit_code == 0 ==> after
                    == (match next_stage(s) {
                    Some(n) => PipelineStatus::Pending(n),
                    None => PipelineStatus::Done,
                })) && (exit_code != 0
                    ==> (after matches PipelineStatus::Failed(fs, out) && fs == s && out@
                    == output@))))
                &&& (!(before is Pending) ==> after == before)
            }),
    {
        let next = match &self.status {
            PipelineStatus::Pending(s) => {
                if exit_code == 0 {
                    match s {
                        Stage::Provision => PipelineStatus::Pending(Stage::Configure),
                        Stage::Configure => PipelineStatus::Pending(Stage::Compile),
                        Stage::Compile => PipelineStatus::Pending(Stage::GenerateDeclarations),
                        Stage::GenerateDeclarations => PipelineStatus::Pending(Stage::Emit),
                        Stage::Emit => PipelineStatus::Done,
                    }
                } else {
                    PipelineStatus::Failed(*s, output)
                }
            },
            PipelineStatus::Done => {
                return ;
            },
            PipelineStatus::Failed(_, _) => {
                return ;
            },
        };
        self.status = next;
    }
}

} // verus!
