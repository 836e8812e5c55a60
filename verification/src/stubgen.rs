//! The shapes the offline stub generator works with: descriptions of
//! foreign functions to expose, of the crates they come from, and of a
//! crate's public surface. The generator itself runs offline; its one
//! contract with the execution core is that it emits entries matching the
//! symbol registry's name, symbol and signature shape.

use vstd::prelude::*;
use vstd::string::StrSliceExecFns;
use sha1::{Digest, Sha1};
use crate::strutil::{spec_join, join_strings};

verus! {

/// How a stub invokes the underlying function.
#[derive(Clone, Debug)]
pub enum CallTemplate {
    Direct,
    Result,
    Expr(String),
}

/// One foreign function the stub generator exposes through the bridge.
#[derive(Debug)]
pub struct FunctionSpec {
    pub name: String,
    pub symbol: String,
    pub params: Vec<TypeSpec>,
    pub result: TypeSpec,
    pub doc: Option<String>,
    pub rust_path: Option<String>,
    pub call: CallTemplate,
}

pub uninterp spec fn lower_of(s: Seq<char>) -> Seq<char>;

/// Relies on `str::to_lowercase`: the result depends on the characters of
/// the argument alone.
#[verifier::external_body]
fn lowercase(s: &str) -> (r: String)
    ensures
        r@ == lower_of(s@),
{
    s.to_lowercase()
}

impl FunctionSpec {
    /// A direct stub with the conventional symbol: the lowercased name
    /// behind an `otter_` prefix.
    pub fn simple(name: &str, params: Vec<TypeSpec>, result: TypeSpec) -> (r: Self)
        ensures
            r.name@ == name@,
            r.symbol@ == "otter_"@ + lower_of(name@),
            r.params == params,
            r.result == result,
            r.doc is None,
            r.rust_path is None,
            r.call is Direct,
    {
        let mut symbol = "otter_".to_owned();
        symbol.append(lowercase(name).as_str());
        FunctionSpec {
            name: name.to_owned(),
            symbol,
            params,
            result,
            doc: None,
            rust_path: None,
            call: CallTemplate::Direct,
        }
    }
}

/// The primitive value categories a generated stub can carry.
#[derive(Clone, Copy, Debug, PartialEq, Eq, Structural)]
pub enum TypeSpec {
    Unit,
    Bool,
    I32,
    I64,
    F64,
    Str,
    Opaque,
}

/// The variant path of the registry type each category registers as.
pub open spec fn spec_ffi_variant(t: TypeSpec) -> Seq<char> {
    match t {
        TypeSpec::Unit => "FfiType::Unit"@,
        TypeSpec::Bool => "FfiType::Bool"@,
        TypeSpec::I32 => "FfiType::I32"@,
        TypeSpec::I64 => "FfiType::I64"@,
        TypeSpec::F64 => "FfiType::F64"@,
        TypeSpec::Str => "FfiType::Str"@,
        TypeSpec::Opaque => "FfiType::Opaque"@,
    }
}

/// The Rust type text a generated stub writes for each category.
pub open spec fn spec_to_rust(t: TypeSpec) -> Seq<char> {
    match t {
        TypeSpec::Unit => "()"@,
        TypeSpec::Bool => "bool"@,
        TypeSpec::I32 => "i32"@,
        TypeSpec::I64 => "i64"@,
        TypeSpec::F64 => "f64"@,
        TypeSpec::Str => "*const ::std::os::raw::c_char"@,
        TypeSpec::Opaque => "i64"@,
    }
}

/// The fallback-return text a generated stub writes for each category.
pub open spec fn spec_default_return(t: TypeSpec) -> Seq<char> {
    match t {
        TypeSpec::Unit => "()"@,
        TypeSpec::Bool => "false"@,
        TypeSpec::I32 => "0"@,
        TypeSpec::I64 => "0"@,
        TypeSpec::F64 => "0.0"@,
        TypeSpec::Str => "::std::ptr::null_mut()"@,
        TypeSpec::Opaque => "0"@,
    }
}

impl TypeSpec {
    /// The Rust type text a generated stub writes for this category.
    pub fn to_rust(&self) -> (r: &'static str)
        ensures
            r@ == spec_to_rust(*self),
    {
        proof {
            reveal_strlit("()");
            reveal_strlit("bool");
            reveal_strlit("i32");
            reveal_strlit("i64");
            reveal_strlit("f64");
            reveal_strlit("*const ::std::os::raw::c_char");
        }
        let r: &'static str = match self {
            TypeSpec::Unit => "()",
            TypeSpec::Bool => "bool",
            TypeSpec::I32 => "i32",
            TypeSpec::I64 => "i64",
            TypeSpec::F64 => "f64",
            TypeSpec::Str => "*const ::std::os::raw::c_char",
            TypeSpec::Opaque => "i64",
        };
        proof {
            assert(r@ =~= spec_to_rust(*self));
        }
        r
    }

    /// The fallback-return text a generated stub writes for this category.
    pub fn default_return(&self) -> (r: &'static str)
        ensures
            r@ == spec_default_return(*self),
    {
        proof {
            reveal_strlit("()");
            reveal_strlit("false");
            reveal_strlit("0");
            reveal_strlit("0.0");
            reveal_strlit("::std::ptr::null_mut()");
        }
        let r: &'static str = match self {
            TypeSpec::Unit => "()",
            TypeSpec::Bool => "false",
            TypeSpec::I32 => "0",
            TypeSpec::I64 => "0",
            TypeSpec::F64 => "0.0",
            TypeSpec::Str => "::std::ptr::null_mut()",
            TypeSpec::Opaque => "0",
        };
        proof {
            assert(r@ =~= spec_default_return(*self));
        }
        r
    }

    /// The variant path of the registry type this category registers as.
    pub fn ffi_variant(&self) -> (r: &'static str)
        ensures
            r@ == spec_ffi_variant(*self),
    {
        proof {
            reveal_strlit("FfiType::Unit");
            reveal_strlit("FfiType::Bool");
            reveal_strlit("FfiType::I32");
            reveal_strlit("FfiType::I64");
            reveal_strlit("FfiType::F64");
            reveal_strlit("FfiType::Str");
            reveal_strlit("FfiType::Opaque");
        }
        let r: &'static str = match self {
            TypeSpec::Unit => "FfiType::Unit",
            TypeSpec::Bool => "FfiType::Bool",
            TypeSpec::I32 => "FfiType::I32",
            TypeSpec::I64 => "FfiType::I64",
            TypeSpec::F64 => "FfiType::F64",
            TypeSpec::Str => "FfiType::Str",
            TypeSpec::Opaque => "FfiType::Opaque",
        };
        proof {
            assert(r@ =~= spec_ffi_variant(*self));
        }
        r
    }
}

/// The source artifacts that comprise one generated stub crate.
#[derive(Debug)]
pub struct StubSource {
    pub manifest: String,
    pub source: String,
}

/// One dependency of a generated stub crate, as it appears in a manifest.
#[derive(Debug)]
pub struct DependencyConfig {
    pub name: String,
    pub version: Option<String>,
    pub path: Option<String>,
    pub features: Vec<String>,
    pub default_features: bool,
}

/// Bundled metadata the generator emits for one bridged crate.
#[derive(Debug)]
pub struct BridgeMetadata {
    pub crate_name: String,
    pub dependency: DependencyConfig,
    pub functions: Vec<FunctionSpec>,
}

/// The normalized public surface of a crate, for transparent bridging.
#[derive(Debug)]
pub struct CrateSpec {
    pub name: String,
    pub version: Option<String>,
    pub items: Vec<PublicItem>,
}

/// A fully qualified path represented as its segments.
#[derive(Debug, PartialEq, Eq, Hash)]
pub struct RustPath {
    pub segments: Vec<String>,
}

impl RustPath {
    /// The path rendered with dots between segments.
    pub fn display_dot(&self) -> (r: String)
        ensures
            r@ == spec_join(self.segments.deep_view(), "."@),
    {
        join_strings(&self.segments, ".")
    }

    /// The path rendered with double colons between segments.
    pub fn display_colon(&self) -> (r: String)
        ensures
            r@ == spec_join(self.segments.deep_view(), "::"@),
    {
        join_strings(&self.segments, "::")
    }
}

/// One public item of a bridged crate's surface.
#[derive(Debug)]
pub enum PublicItem {
    Function { sig: FnSig, path: RustPath, doc: Option<String> },
    Method { impl_for: RustTypeRef, sig: FnSig, path: RustPath, doc: Option<String> },
    AssocFunction { impl_for: RustTypeRef, sig: FnSig, path: RustPath, doc: Option<String> },
    Const { name: String, ty: RustTypeRef, path: RustPath, doc: Option<String> },
    Static { name: String, ty: RustTypeRef, mutable: bool, path: RustPath, doc: Option<String> },
    Struct { name: String, path: RustPath, doc: Option<String> },
    Enum { name: String, path: RustPath, doc: Option<String> },
    TypeAlias { name: String, aliased: RustTypeRef, path: RustPath, doc: Option<String> },
    Module { name: String, path: RustPath, doc: Option<String> },
}

/// A function signature with parameter and return types.
#[derive(Debug)]
pub struct FnSig {
    pub name: String,
    pub params: Vec<RustTypeRef>,
    pub return_type: Option<RustTypeRef>,
    pub is_async: bool,
}

/// An abstract type reference, sufficient for generating shims.
#[derive(Debug)]
pub enum RustTypeRef {
    Unit,
    Bool,
    I32,
    I64,
    F64,
    Str,
    Path { path: RustPath },
    Ref { mutable: bool, inner: Box<RustTypeRef> },
    Vector { elem: Box<RustTypeRef> },
    Slice { elem: Box<RustTypeRef> },
    Array { elem: Box<RustTypeRef>, len: usize },
    Tuple { elems: Vec<RustTypeRef> },
    Maybe { inner: Box<RustTypeRef> },
    Fallible { ok: Box<RustTypeRef>, err: Box<RustTypeRef> },
    Future { output: Box<RustTypeRef> },
    Opaque,
}

impl RustTypeRef {
    /// Whether this reference is the unit type.
    pub fn is_unit(&self) -> (r: bool)
        ensures
            r == (*self matches RustTypeRef::Unit),
    {
        matches!(self, RustTypeRef::Unit)
    }
}

impl DependencyConfig {
    /// The dependency's manifest entry: its version, path, feature list and
    /// default-feature switch joined into one table line, or a bare
    /// wildcard version when nothing is set.
    pub fn manifest_entry(&self) -> (r: String)
        ensures
            r@ == spec_manifest_entry(self),
    {
        proof {
            reveal_strlit("version = \"");
            reveal_strlit("path = \"");
            reveal_strlit("features = [");
            reveal_strlit("\"");
            reveal_strlit("]");
            reveal_strlit("default-features = false");
            reveal_strlit("\"*\"");
            reveal_strlit("{ ");
            reveal_strlit(" }");
            reveal_strlit(", ");
        }
        let mut items: Vec<String> = Vec::new();
        match &self.version {
            Some(version) => {
                let mut it = "version = \"".to_owned();
                it.append(version.as_str());
                it.append("\"");
                items.push(it);
            },
            None => {},
        }
        match &self.path {
            Some(path) => {
                let mut it = "path = \"".to_owned();
                it.append(path.as_str());
                it.append("\"");
                items.push(it);
            },
            None => {},
        }
        if self.features.len() != 0 {
            let mut quoted: Vec<String> = Vec::new();
            let mut i: usize = 0;
            while i < self.features.len()
                invariant
                    i <= self.features@.len(),
                    quoted.deep_view() == quoted_features(self.features.deep_view().take(i as int)),
                decreases self.features@.len() - i,
            {
                let mut q = "\"".to_owned();
                q.append(self.features[i].as_str());
                q.append("\"");
                proof {
                    reveal_strlit("\"");
                    assert(("\""@).len() == 1);
                    assert(q@ =~= quoted_feature(self.features.deep_view()[i as int]));
                }
                let ghost pre = quoted.deep_view();
                let ghost qv = q@;
                quoted.push(q);
                proof {
                    assert(quoted.deep_view() =~= pre.push(qv));
                    assert(pre.push(qv) =~~= quoted_features(
                        self.features.deep_view().take(i as int + 1),
                    ));
                }
                i = i + 1;
            }
            proof {
                assert(self.features.deep_view().take(self.features@.len() as int)
                    =~= self.features.deep_view());
            }
            let mut it = "features = [".to_owned();
            it.append(join_strings(&quoted, ", ").as_str());
            it.append("]");
            items.push(it);
        }
        if !self.default_features {
            items.push("default-features = false".to_owned());
        }
        proof {
            assert(items.deep_view() =~~= spec_manifest_items(self));
        }
        if items.len() == 0 {
            "\"*\"".to_owned()
        } else {
            let mut out = "{ ".to_owned();
            out.append(join_strings(&items, ", ").as_str());
            out.append(" }");
            proof {
                assert(out@ =~= spec_manifest_entry(self));
            }
            out
        }
    }
}

/// One feature name quoted for a manifest list.
pub open spec fn quoted_feature(f: Seq<char>) -> Seq<char> {
    "\""@ + f + "\""@
}

/// Each feature name quoted, in order.
pub open spec fn quoted_features(fs: Seq<Seq<char>>) -> Seq<Seq<char>> {
    fs.map_values(|f: Seq<char>| quoted_feature(f))
}

/// The manifest items of a dependency, in order: version, path, features,
/// default-feature switch.
pub open spec fn spec_manifest_items(c: &DependencyConfig) -> Seq<Seq<char>> {
    let version_part: Seq<Seq<char>> = match c.version {
        Some(v) => seq!["version = \""@ + v@ + "\""@],
        None => Seq::empty(),
    };
    let path_part: Seq<Seq<char>> = match c.path {
        Some(p) => seq!["path = \""@ + p@ + "\""@],
        None => Seq::empty(),
    };
    let features_part: Seq<Seq<char>> = if c.features@.len() != 0 {
        seq![
            "features = ["@ + spec_join(quoted_features(c.features.deep_view()), ", "@) + "]"@,
        ]
    } else {
        Seq::empty()
    };
    let default_part: Seq<Seq<char>> = if !c.default_features {
        seq!["default-features = false"@]
    } else {
        Seq::empty()
    };
    version_part + path_part + features_part + default_part
}

/// The manifest entry of a dependency.
pub open spec fn spec_manifest_entry(c: &DependencyConfig) -> Seq<char> {
    let items = spec_manifest_items(c);
    if items.len() == 0 {
        "\"*\""@
    } else {
        "{ "@ + spec_join(items, ", "@) + " }"@
    }
}


/// Lexicographic order on character sequences, by code point.
pub open spec fn spec_lex_le(a: Seq<char>, b: Seq<char>) -> bool
    decreases a.len(),
{
    if a.len() == 0 {
        true
    } else if b.len() == 0 {
        false
    } else if (a[0] as u32) < (b[0] as u32) {
        true
    } else if (a[0] as u32) > (b[0] as u32) {
        false
    } else {
        spec_lex_le(a.drop_first(), b.drop_first())
    }
}

/// Pairwise lexicographic sortedness.
pub open spec fn sorted_lex(s: Seq<Seq<char>>) -> bool {
    forall|i: int, j: int| 0 <= i < j < s.len() ==> spec_lex_le(s[i], s[j])
}

/// The lexicographic order is total.
pub proof fn lemma_lex_total(a: Seq<char>, b: Seq<char>)
    ensures
        spec_lex_le(a, b) || spec_lex_le(b, a),
    decreases a.len(),
{
    if a.len() != 0 && b.len() != 0 && (a[0] as u32) == (b[0] as u32) {
        lemma_lex_total(a.drop_first(), b.drop_first());
    }
}

/// The lexicographic order is reflexive.
pub proof fn lemma_lex_refl(a: Seq<char>)
    ensures
        spec_lex_le(a, a),
    decreases a.len(),
{
    if a.len() != 0 {
        lemma_lex_refl(a.drop_first());
    }
}

/// The lexicographic order is transitive.
pub proof fn lemma_lex_trans(a: Seq<char>, b: Seq<char>, c: Seq<char>)
    requires
        spec_lex_le(a, b),
        spec_lex_le(b, c),
    ensures
        spec_lex_le(a, c),
    decreases a.len(),
{
    if a.len() == 0 {
    } else {
        assert(b.len() != 0);
        assert(c.len() != 0);
        if (a[0] as u32) == (b[0] as u32) && (b[0] as u32) == (c[0] as u32) {
            lemma_lex_trans(a.drop_first(), b.drop_first(), c.drop_first());
        }
    }
}

fn lex_le_from(a: &str, b: &str, i: usize) -> (r: bool)
    requires
        i <= a@.len(),
        i <= b@.len(),
    ensures
        r == spec_lex_le(a@.skip(i as int), b@.skip(i as int)),
    decreases a@.len() - i,
{
    let la = a.unicode_len();
    let lb = b.unicode_len();
    if i == la {
        proof {
            assert(a@.skip(i as int) =~= Seq::<char>::empty());
        }
        return true;
    }
    if i == lb {
        proof {
            assert(b@.skip(i as int) =~= Seq::<char>::empty());
        }
        return false;
    }
    let ca = a.get_char(i);
    let cb = b.get_char(i);
    proof {
        assert(a@.skip(i as int)[0] == a@[i as int]);
        assert(b@.skip(i as int)[0] == b@[i as int]);
    }
    if (ca as u32) < (cb as u32) {
        true
    } else if (ca as u32) > (cb as u32) {
        false
    } else {
        let r = lex_le_from(a, b, i + 1);
        proof {
            assert(a@.skip(i as int).drop_first() =~= a@.skip(i as int + 1));
            assert(b@.skip(i as int).drop_first() =~= b@.skip(i as int + 1));
        }
        r
    }
}

/// Whether `a` comes at or before `b` in lexicographic order.
fn str_lex_le(a: &str, b: &str) -> (r: bool)
    ensures
        r == spec_lex_le(a@, b@),
{
    proof {
        assert(a@.skip(0) =~= a@);
        assert(b@.skip(0) =~= b@);
    }
    lex_le_from(a, b, 0)
}

proof fn lemma_insert_to_multiset(s: Seq<Seq<char>>, i: int, x: Seq<char>)
    requires
        0 <= i <= s.len(),
    ensures
        s.insert(i, x).to_multiset() =~= s.to_multiset().insert(x),
{
    broadcast use vstd::seq_lib::group_to_multiset_ensures;

    let t = s.insert(i, x);
    assert(t[i] == x);
    assert(t.remove(i) =~= s);
    assert(s.to_multiset() =~= t.to_multiset().remove(x));
    assert(t.to_multiset().contains(x)) by {
        assert(t.contains(x));
    }
    assert forall|e: Seq<char>|
        t.to_multiset().count(e) == s.to_multiset().insert(x).count(e) by {
        if e == x {
            assert(t.to_multiset().count(x) >= 1);
        }
    }
}

/// Sorts the names lexicographically, keeping exactly the same multiset of
/// names.
fn sort_strings(v: &Vec<String>) -> (r: Vec<String>)
    ensures
        sorted_lex(r.deep_view()),
        r.deep_view().to_multiset() == v.deep_view().to_multiset(),
{
    broadcast use vstd::seq_lib::group_to_multiset_ensures;

    let mut out: Vec<String> = Vec::new();
    let mut i: usize = 0;
    while i < v.len()
        invariant
            i <= v@.len(),
            sorted_lex(out.deep_view()),
            out.deep_view().to_multiset() == v.deep_view().take(i as int).to_multiset(),
        decreases v@.len() - i,
    {
        broadcast use vstd::seq_lib::group_to_multiset_ensures;

        let x = v[i].clone();
        let ghost xv = x@;
        let mut k: usize = 0;
        loop
            invariant
                k <= out@.len(),
                forall|j: int| 0 <= j < k ==> spec_lex_le(out.deep_view()[j], xv),
                x@ == xv,
                sorted_lex(out.deep_view()),
            ensures
                k <= out@.len(),
                forall|j: int| 0 <= j < k ==> spec_lex_le(out.deep_view()[j], xv),
                k < out@.len() ==> !spec_lex_le(out.deep_view()[k as int], xv),
            decreases out@.len() - k,
        {
            if k == out.len() {
                break;
            }
            if !str_lex_le(out[k].as_str(), x.as_str()) {
                break;
            }
            k = k + 1;
        }
        let ghost pre = out.deep_view();
        let ghost kk = k as int;
        proof {
            if kk < pre.len() {
                lemma_lex_total(pre[kk], xv);
            }
        }
        out.insert(k, x);
        proof {
            assert(out.deep_view() =~= pre.insert(kk, xv));
            lemma_insert_to_multiset(pre, kk, xv);
            assert(v.deep_view().take(i as int).push(xv) =~= v.deep_view().take(i as int + 1));
            let now = pre.insert(kk, xv);
            assert forall|a: int, b: int|
                0 <= a < b < now.len() implies spec_lex_le(now[a], now[b]) by {
                if a < kk && b == kk {
                    assert(now[a] == pre[a]);
                    assert(now[b] == xv);
                } else if a < kk && b > kk {
                    assert(now[a] == pre[a]);
                    assert(now[b] == pre[b - 1]);
                } else if a == kk && b > kk {
                    assert(now[a] == xv);
                    assert(now[b] == pre[b - 1]);
                    assert(spec_lex_le(xv, pre[kk]));
                    if b - 1 == kk {
                    } else {
                        assert(spec_lex_le(pre[kk], pre[b - 1]));
                        lemma_lex_trans(xv, pre[kk], pre[b - 1]);
                    }
                } else if a > kk && b > kk {
                    assert(now[a] == pre[a - 1]);
                    assert(now[b] == pre[b - 1]);
                }
            }
        }
        i = i + 1;
    }
    proof {
        assert(v.deep_view().take(v@.len() as int) =~= v.deep_view());
    }
    out
}

pub uninterp spec fn sha1_of(s: Seq<char>) -> Seq<u8>;

/// Relies on the sha1 crate's digest: twenty bytes that are a pure
/// function of the input characters.
#[verifier::external_body]
fn sha1_digest(data: &str) -> (r: Vec<u8>)
    ensures
        r@ == sha1_of(data@),
        r@.len() == 20,
{
    Sha1::digest(data.as_bytes()).to_vec()
}

/// The character for one hexadecimal digit, lowercase.
pub open spec fn spec_hex_digit(d: int) -> char {
    if d < 10 {
        crate::strutil::spec_digit_char(d)
    } else if d == 10 {
        'a'
    } else if d == 11 {
        'b'
    } else if d == 12 {
        'c'
    } else if d == 13 {
        'd'
    } else if d == 14 {
        'e'
    } else {
        'f'
    }
}

/// The lowercase hexadecimal rendering of a byte sequence, two digits per
/// byte.
pub open spec fn spec_hex(bs: Seq<u8>) -> Seq<char>
    decreases bs.len(),
{
    if bs.len() == 0 {
        Seq::empty()
    } else {
        seq![spec_hex_digit(bs[0] as int / 16), spec_hex_digit(bs[0] as int % 16)] + spec_hex(
            bs.drop_first(),
        )
    }
}

/// Two digits render per byte.
pub proof fn lemma_spec_hex_len(bs: Seq<u8>)
    ensures
        spec_hex(bs).len() == 2 * bs.len(),
    decreases bs.len(),
{
    if bs.len() > 0 {
        lemma_spec_hex_len(bs.drop_first());
    }
}

fn hex_digit_str(d: u8) -> (r: &'static str)
    requires
        d < 16,
    ensures
        r@ == seq![spec_hex_digit(d as int)],
{
    if d < 10 {
        crate::strutil::digit_str_of(d as u64)
    } else {
        proof {
            reveal_strlit("a");
            reveal_strlit("b");
            reveal_strlit("c");
            reveal_strlit("d");
            reveal_strlit("e");
            reveal_strlit("f");
        }
        let r: &'static str = match d {
            10 => "a",
            11 => "b",
            12 => "c",
            13 => "d",
            14 => "e",
            _ => "f",
        };
        proof {
            assert(r@ =~= seq![spec_hex_digit(d as int)]);
        }
        r
    }
}

fn hex_from(bytes: &Vec<u8>, i: usize) -> (r: String)
    requires
        i <= bytes@.len(),
    ensures
        r@ == spec_hex(bytes@.skip(i as int)),
    decreases bytes@.len() - i,
{
    if i == bytes.len() {
        proof {
            assert(bytes@.skip(i as int) =~= Seq::<u8>::empty());
        }
        return String::new();
    }
    let b = bytes[i];
    let mut out = hex_digit_str(b / 16).to_owned();
    out.append(hex_digit_str(b % 16));
    out.append(hex_from(bytes, i + 1).as_str());
    proof {
        assert(bytes@.skip(i as int)[0] == bytes@[i as int]);
        assert(bytes@.skip(i as int).drop_first() =~= bytes@.skip(i as int + 1));
        assert(out@ =~= spec_hex(bytes@.skip(i as int)));
    }
    out
}

/// The feature names of a hash preimage, each behind its tag, in order.
pub open spec fn spec_features_part(fs: Seq<Seq<char>>) -> Seq<char>
    decreases fs.len(),
{
    if fs.len() == 0 {
        Seq::empty()
    } else {
        "feature:"@ + fs[0] + spec_features_part(fs.drop_first())
    }
}

proof fn lemma_features_part_push(fs: Seq<Seq<char>>, x: Seq<char>)
    ensures
        spec_features_part(fs.push(x)) == spec_features_part(fs) + "feature:"@ + x,
    decreases fs.len(),
{
    if fs.len() == 0 {
        assert(fs.push(x).drop_first() =~= Seq::<Seq<char>>::empty());
        assert(fs.push(x)[0] == x);
        assert(spec_features_part(Seq::<Seq<char>>::empty()) =~= Seq::<char>::empty());
        assert(spec_features_part(fs.push(x)) == "feature:"@ + x + spec_features_part(
            Seq::<Seq<char>>::empty(),
        ));
        assert("feature:"@ + x + Seq::<char>::empty() =~= "feature:"@ + x);
        assert(spec_features_part(fs) + "feature:"@ + x =~= "feature:"@ + x);
    } else {
        lemma_features_part_push(fs.drop_first(), x);
        assert(fs.push(x).drop_first() =~= fs.drop_first().push(x));
        assert(spec_features_part(fs.push(x)) == "feature:"@ + fs[0] + spec_features_part(
            fs.drop_first().push(x),
        ));
        assert("feature:"@ + fs[0] + (spec_features_part(fs.drop_first()) + "feature:"@ + x)
            =~= ("feature:"@ + fs[0] + spec_features_part(fs.drop_first())) + "feature:"@ + x);
    }
}

/// The digest preimage of a dependency: its name, then its tagged version
/// and path when present, then each feature of `fs` tagged and in order,
/// then the default-feature marker when defaults are off.
pub open spec fn spec_hash_preimage(c: &DependencyConfig, fs: Seq<Seq<char>>) -> Seq<char> {
    c.name@ + (match c.version {
        Some(v) => "version:"@ + v@,
        None => Seq::empty(),
    }) + (match c.path {
        Some(p) => "path:"@ + p@,
        None => Seq::empty(),
    }) + spec_features_part(fs) + (if !c.default_features {
        "no-default-features"@
    } else {
        Seq::<char>::empty()
    })
}

impl DependencyConfig {
    /// A deterministic cache fingerprint: the lowercase hexadecimal digest
    /// of the dependency's name, version, path, lexicographically sorted
    /// features, and default-feature switch.
    pub fn cache_hash(&self) -> (r: String)
        ensures
            r@.len() == 40,
            exists|fs: Seq<Seq<char>>|
                {
                    &&& sorted_lex(fs)
                    &&& fs.to_multiset() == self.features.deep_view().to_multiset()
                    &&& r@ == spec_hex(sha1_of(spec_hash_preimage(self, fs)))
                },
    {
        let mut pre = self.name.clone();
        match &self.version {
            Some(v) => {
                pre.append("version:");
                pre.append(v.as_str());
            },
            None => {},
        }
        match &self.path {
            Some(p) => {
                pre.append("path:");
                pre.append(p.as_str());
            },
            None => {},
        }
        let ghost base = pre@;
        let sorted = sort_strings(&self.features);
        let mut i: usize = 0;
        while i < sorted.len()
            invariant
                i <= sorted@.len(),
                pre@ == base + spec_features_part(sorted.deep_view().take(i as int)),
            decreases sorted@.len() - i,
        {
            pre.append("feature:");
            pre.append(sorted[i].as_str());
            proof {
                lemma_features_part_push(
                    sorted.deep_view().take(i as int),
                    sorted.deep_view()[i as int],
                );
                assert(sorted.deep_view().take(i as int).push(sorted.deep_view()[i as int])
                    =~= sorted.deep_view().take(i as int + 1));
                assert(pre@ =~= base + spec_features_part(sorted.deep_view().take(i as int + 1)));
            }
            i = i + 1;
        }
        proof {
            assert(sorted.deep_view().take(sorted@.len() as int) =~= sorted.deep_view());
        }
        if !self.default_features {
            pre.append("no-default-features");
        }
        proof {
            assert(pre@ =~= spec_hash_preimage(self, sorted.deep_view()));
        }
        let digest = sha1_digest(pre.as_str());
        let r = hex_from(&digest, 0);
        proof {
            assert(digest@.skip(0) =~= digest@);
            lemma_spec_hex_len(digest@);
            let fs = sorted.deep_view();
            assert(sorted_lex(fs) && fs.to_multiset() == self.features.deep_view().to_multiset()
                && r@ == spec_hex(sha1_of(spec_hash_preimage(self, fs))));
        }
        r
    }
}

} // verus!
