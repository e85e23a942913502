use vstd::prelude::*;

use crate::error::JvmError;
use crate::klass_names::spec_klass_name_from_fq;
use crate::klass_parser::{OtKlassParser, klass_build_error, klass_from_file};
use crate::interpreter::{run_clinit_method, runs_clinit};
use crate::object::ObjView;
use crate::simple_heap::SharedSimpleHeap;
use crate::native_methods::NativeMethod;
use crate::otfield::OtField;
use crate::otklass::{
    KlassView, OtKlass, cp_string, last_method_index, last_slot, mentioned_upto,
};
use crate::options::Options;
use crate::class_format::{class_name_at, spec_parse_class};
use vstd::slice::slice_to_vec;
use crate::otmethod::{MethodView, OtMethod};
use crate::strings::{chars_of, join, str_eq};
use crate::values::JvmValue;
use vstd::seq_lib::lemma_seq_contains_after_push;

verus! {

/// How far a class has got: only mentioned by another class, loaded from
/// its class file, or live (its native methods installed).
#[derive(Debug)]
pub enum KlassLoadingStatus {
    Mentioned {},
    Loaded { klass: OtKlass },
    Live { klass: OtKlass },
}

/// The abstract content of a loading status.
pub enum StatusView {
    Mentioned,
    Loaded(KlassView),
    Live(KlassView),
}

impl View for KlassLoadingStatus {
    type V = StatusView;

    open spec fn view(&self) -> StatusView {
        match self {
            KlassLoadingStatus::Mentioned {} => StatusView::Mentioned,
            KlassLoadingStatus::Loaded { klass } => StatusView::Loaded(klass@),
            KlassLoadingStatus::Live { klass } => StatusView::Live(klass@),
        }
    }
}

impl Clone for KlassLoadingStatus {
    fn clone(&self) -> (r: KlassLoadingStatus)
        ensures
            r@ == self@,
    {
        match self {
            KlassLoadingStatus::Mentioned {} => KlassLoadingStatus::Mentioned {},
            KlassLoadingStatus::Loaded { klass } => KlassLoadingStatus::Loaded { klass: klass.clone() },
            KlassLoadingStatus::Live { klass } => KlassLoadingStatus::Live { klass: klass.clone() },
        }
    }
}

/// The class of a repository entry when it has been loaded.
pub open spec fn loaded(s: StatusView) -> Option<KlassView> {
    match s {
        StatusView::Mentioned => None,
        StatusView::Loaded(k) => Some(k),
        StatusView::Live(k) => Some(k),
    }
}

/// What looking up class `n` in the repository `m` gives.
pub open spec fn spec_lookup(m: Map<Seq<char>, StatusView>, n: Seq<char>) -> Result<KlassView, JvmError> {
    if !m.contains_key(n) {
        Err(JvmError::KlassNotFound)
    } else {
        match loaded(m[n]) {
            Some(k) => Ok(k),
            None => Err(JvmError::KlassNotLoaded),
        }
    }
}

/// `m` with every name of `names` it lacks added as mentioned.
pub open spec fn mention_all(m: Map<Seq<char>, StatusView>, names: Seq<Seq<char>>) -> Map<
    Seq<char>,
    StatusView,
> {
    Map::new(
        |n: Seq<char>| m.contains_key(n) || names.contains(n),
        |n: Seq<char>|
            if m.contains_key(n) {
                m[n]
            } else {
                StatusView::Mentioned
            },
    )
}

/// The first position from `i` on where `n` occurs in `ns`.
pub open spec fn first_from(ns: Seq<Seq<char>>, n: Seq<char>, i: int) -> Option<int>
    decreases ns.len() - i,
{
    if i < 0 || i >= ns.len() {
        None
    } else if ns[i] == n {
        Some(i)
    } else {
        first_from(ns, n, i + 1)
    }
}

proof fn lemma_first_from_found(ns: Seq<Seq<char>>, n: Seq<char>, i: int)
    ensures
        first_from(ns, n, i) matches Some(j) ==> i <= j < ns.len() && ns[j] == n,
    decreases ns.len() - i,
{
    if 0 <= i < ns.len() && ns[i] != n {
        lemma_first_from_found(ns, n, i + 1);
    }
}

proof fn lemma_first_from_push(ns: Seq<Seq<char>>, m: Seq<char>, n: Seq<char>, i: int)
    requires
        0 <= i <= ns.len(),
    ensures
        first_from(ns.push(m), n, i) == (match first_from(ns, n, i) {
            Some(j) => Some(j),
            None => if m == n {
                Some(ns.len() as int)
            } else {
                None
            },
        }),
    decreases ns.len() - i,
{
    if i < ns.len() {
        assert(ns.push(m)[i] == ns[i]);
        if ns[i] != n {
            lemma_first_from_push(ns, m, n, i + 1);
        }
    } else {
        assert(ns.push(m)[i] == m);
        assert(first_from(ns.push(m), n, i + 1) is None);
    }
}

/// The field that entry `idx` of class `name`'s constant pool refers to: the
/// entry's `Class.name:desc` string names the class that declares it, and
/// `fields` picks the static or the instance fields of that class.
pub open spec fn spec_lookup_field(
    m: Map<Seq<char>, StatusView>,
    name: Seq<char>,
    idx: u16,
    statics: bool,
) -> Result<OtField, JvmError> {
    match spec_lookup(m, name) {
        Err(e) => Err(e),
        Ok(cur) => match cp_string(cur.cp, idx as int, cur.cp.len()) {
            None => Err(JvmError::NotStringifiable(idx)),
            Some(fq) => match spec_klass_name_from_fq(fq) {
                None => Err(JvmError::KlassNameMissing),
                Some(tn) => match spec_lookup(m, tn) {
                    Err(e) => Err(e),
                    Ok(t) => {
                        let fs = if statics {
                            t.s_fields
                        } else {
                            t.i_fields
                        };
                        match last_slot(t.f_lookup, fq) {
                            Some(i) => if (i as int) < fs.len() {
                                Ok(fs[i as int])
                            } else {
                                Err(JvmError::FieldNotFound)
                            },
                            None => Err(JvmError::FieldNotFound),
                        }
                    },
                },
            },
        },
    }
}

/// What `lookup_method_exact` finds: the method registered last under
/// `fq_name_desc` in the loaded class `name`.
pub open spec fn spec_lookup_method(m: Map<Seq<char>, StatusView>, name: Seq<char>, fq_name_desc: Seq<
    char,
>) -> Result<MethodView, JvmError> {
    match spec_lookup(m, name) {
        Err(e) => Err(e),
        Ok(k) => match last_method_index(k.methods, fq_name_desc) {
            Some(i) => Ok(k.methods[i]),
            None => Err(JvmError::MethodNotFound),
        },
    }
}

/// The class `k` with native code installed on the method registered last
/// under `fq_name_desc`, if it has one.
pub open spec fn with_native(k: KlassView, fq_name_desc: Seq<char>, n_code: NativeMethod) -> Option<
    KlassView,
> {
    match last_method_index(k.methods, fq_name_desc) {
        Some(i) => Some(
            KlassView {
                methods: k.methods.update(
                    i,
                    MethodView { native_code: Some(n_code), ..k.methods[i] },
                ),
                ..k
            },
        ),
        None => None,
    }
}

/// What adding class `k` to the repository `m0` gives: the result `r` and
/// the repository `m1` (see `add_klass`).
pub open spec fn adds_klass(
    m0: Map<Seq<char>, StatusView>,
    k: OtKlass,
    r: Result<(), JvmError>,
    m1: Map<Seq<char>, StatusView>,
) -> bool {
    if m0.contains_key(k@.name) {
        r is Ok && m1 == (if m0[k@.name] is Mentioned {
            m0.insert(k@.name, StatusView::Loaded(k@))
        } else {
            m0
        })
    } else {
        match mentioned_upto(&k, k@.cp.len() as int) {
            Ok(names) => r is Ok && m1 == mention_all(m0.insert(k@.name, StatusView::Loaded(k@)), names),
            Err(u) => r == Err::<(), JvmError>(JvmError::NotStringifiable(u)) && m1 == m0,
        }
    }
}

/// What reading the class file `b` and adding the class it declares to
/// `m0` gives (see `add_klass_bytes`).
pub open spec fn adds_klass_bytes(
    m0: Map<Seq<char>, StatusView>,
    b: Seq<u8>,
    r: Result<(), JvmError>,
    m1: Map<Seq<char>, StatusView>,
) -> bool {
    match spec_parse_class(b) {
        Err(e) => r == Err::<(), JvmError>(e) && m1 == m0,
        Ok(cf) => match klass_build_error(cf) {
            Some(e) => r == Err::<(), JvmError>(e) && m1 == m0,
            None => exists|k: OtKlass| #[trigger] klass_from_file(k@, cf) && adds_klass(m0, k, r, m1),
        },
    }
}

/// Whether an entry named `name` is read: every entry, or with
/// `only_class_files` those whose name ends in `.class`.
pub open spec fn selected_entry(only_class_files: bool, name: Seq<char>) -> bool {
    !only_class_files || is_class_file_name(name)
}

/// What one entry of an archive does to `m0`: an entry that is read adds
/// the class of its bytes (see `adds_klass_bytes`); a skipped one changes
/// nothing.
pub open spec fn entry_step(
    m0: Map<Seq<char>, StatusView>,
    e: (String, Vec<u8>),
    only_class_files: bool,
    r: Result<(), JvmError>,
    m1: Map<Seq<char>, StatusView>,
) -> bool {
    if selected_entry(only_class_files, e.0@) {
        adds_klass_bytes(m0, e.1@, r, m1)
    } else {
        r is Ok && m1 == m0
    }
}

/// `ms[j]` is the repository before entry `j` of `es` and `ms[j + 1]` the
/// one after it, for each of the first `n` entries, all added without
/// failure, starting from `m0`.
pub open spec fn entries_chain(
    m0: Map<Seq<char>, StatusView>,
    es: Seq<(String, Vec<u8>)>,
    only_class_files: bool,
    ms: Seq<Map<Seq<char>, StatusView>>,
    n: int,
) -> bool {
    &&& 0 <= n <= es.len()
    &&& ms.len() == n + 1
    &&& ms[0] == m0
    &&& forall|j: int|
        #![trigger es[j]]
        0 <= j < n ==> entry_step(ms[j], es[j], only_class_files, Ok(()), ms[j + 1])
}

/// What adding the classes of the entries of `es` to `m0`, in order, gives,
/// stopping at the first that fails: on success every entry was added; on
/// failure the entries before the failing one were.
pub open spec fn adds_entries(
    m0: Map<Seq<char>, StatusView>,
    es: Seq<(String, Vec<u8>)>,
    only_class_files: bool,
    r: Result<(), JvmError>,
    m1: Map<Seq<char>, StatusView>,
) -> bool {
    if r is Ok {
        exists|ms: Seq<Map<Seq<char>, StatusView>>|
            #[trigger] entries_chain(m0, es, only_class_files, ms, es.len() as int) && m1 == ms.last()
    } else {
        exists|ms: Seq<Map<Seq<char>, StatusView>>, j: int|
            #[trigger] entries_chain(m0, es, only_class_files, ms, j) && j < es.len() && entry_step(
                ms[j],
                es[j],
                only_class_files,
                r,
                m1,
            )
    }
}

/// What installing native code `n_code` for method `name_desc` of class
/// `kname` in `m0` gives: the result and the repository (see
/// `install_native_method`).
pub open spec fn installs_native(
    m0: Map<Seq<char>, StatusView>,
    kname: Seq<char>,
    name_desc: Seq<char>,
    n_code: NativeMethod,
) -> (Result<(), JvmError>, Map<Seq<char>, StatusView>) {
    match spec_lookup(m0, kname) {
        Err(e) => (Err(e), m0),
        Ok(k) => match with_native(k, kname + seq!['.'] + name_desc, n_code) {
            Some(k2) => (Ok(()), m0.insert(kname, StatusView::Live(k2))),
            None => (Err(JvmError::MethodNotFound), m0),
        },
    }
}

/// The result of running a static initializer, its value dropped.
pub open spec fn dropped_value(rc: Result<Option<JvmValue>, JvmError>) -> Result<(), JvmError> {
    match rc {
        Ok(_) => Ok(()),
        Err(e) => Err(e),
    }
}

/// What `bootstrap` gives on `m0` and the heap `h0` with the archive
/// entries `es`: their classes added, then the native methods of
/// `java/lang/Object` and `java/lang/System` installed, then the static
/// initializer of `java/io/FileDescriptor` run (see `runs_clinit`),
/// stopping at the first failure. The heap changes only by that run.
pub open spec fn bootstraps(
    m0: Map<Seq<char>, StatusView>,
    es: Seq<(String, Vec<u8>)>,
    h0: Seq<ObjView>,
    r: Result<(), JvmError>,
    m1: Map<Seq<char>, StatusView>,
    h1: Seq<ObjView>,
) -> bool {
    ||| r is Err && adds_entries(m0, es, true, r, m1) && h1 == h0
    ||| exists|m: Map<Seq<char>, StatusView>|
        #[trigger] adds_entries(m0, es, true, Ok(()), m) && {
            let (r1, m2) = installs_native(
                m,
                "java/lang/Object"@,
                "hashCode:()I"@,
                NativeMethod::ObjectHashCode,
            );
            let (r2, m3) = installs_native(
                m2,
                "java/lang/System"@,
                "currentTimeMillis:()J"@,
                NativeMethod::SystemCurrentTimeMillis,
            );
            if r1 is Err {
                r == r1 && m1 == m2 && h1 == h0
            } else if r2 is Err {
                r == r2 && m1 == m3 && h1 == h0
            } else {
                m1 == m3 && exists|rc: Result<Option<JvmValue>, JvmError>|
                    #[trigger] runs_clinit(m3, "java/io/FileDescriptor"@, h0, rc, h1) && r
                        == dropped_value(rc)
            }
        }
}

/// A class name and how far that class has got.
#[derive(Debug)]
struct KlassEntry {
    name: String,
    status: KlassLoadingStatus,
}

/// The names of the entries, in order.
spec fn entry_names(es: Seq<KlassEntry>) -> Seq<Seq<char>> {
    es.map_values(|e: KlassEntry| e.name@)
}

/// The repository as a map: each name to the status of its first entry.
spec fn entries_map(es: Seq<KlassEntry>) -> Map<Seq<char>, StatusView> {
    Map::new(
        |n: Seq<char>| first_from(entry_names(es), n, 0) is Some,
        |n: Seq<char>| es[first_from(entry_names(es), n, 0)->0].status@,
    )
}

proof fn lemma_entries_push(es: Seq<KlassEntry>, e: KlassEntry)
    requires
        !entries_map(es).contains_key(e.name@),
    ensures
        entries_map(es.push(e)) == entries_map(es).insert(e.name@, e.status@),
{
    let ns = entry_names(es);
    assert(entry_names(es.push(e)) =~= ns.push(e.name@));
    assert forall|n: Seq<char>| #[trigger] first_from(ns.push(e.name@), n, 0) == (match first_from(ns, n, 0) {
        Some(j) => Some(j),
        None => if e.name@ == n {
            Some(ns.len() as int)
        } else {
            None
        },
    }) by {
        lemma_first_from_push(ns, e.name@, n, 0);
        lemma_first_from_found(ns, n, 0);
    }
    assert forall|n: Seq<char>| #[trigger] first_from(ns, n, 0) matches Some(j) ==> 0 <= j < ns.len() by {
        lemma_first_from_found(ns, n, 0);
    }
    assert(entries_map(es.push(e)) =~= entries_map(es).insert(e.name@, e.status@));
}

proof fn lemma_entries_update(es: Seq<KlassEntry>, k: int, e: KlassEntry)
    requires
        0 <= k < es.len(),
        first_from(entry_names(es), e.name@, 0) == Some(k),
    ensures
        entries_map(es.update(k, e)) == entries_map(es).insert(e.name@, e.status@),
{
    let ns = entry_names(es);
    lemma_first_from_found(ns, e.name@, 0);
    assert(entry_names(es.update(k, e)) =~= ns);
    assert forall|n: Seq<char>| #[trigger] first_from(ns, n, 0) matches Some(j) ==> 0 <= j < ns.len()
        && ns[j] == n by {
        lemma_first_from_found(ns, n, 0);
    }
    assert(entries_map(es.update(k, e)) =~= entries_map(es).insert(e.name@, e.status@));
}

/// The classes known to the machine, by name.
#[derive(Debug)]
pub struct SharedKlassRepo {
    klass_lookup: Vec<KlassEntry>,
}

impl View for SharedKlassRepo {
    type V = Map<Seq<char>, StatusView>;

    closed spec fn view(&self) -> Map<Seq<char>, StatusView> {
        entries_map(self.klass_lookup@)
    }
}

impl Clone for SharedKlassRepo {
    fn clone(&self) -> (r: SharedKlassRepo)
        ensures
            r@ == self@,
    {
        let mut out: Vec<KlassEntry> = Vec::new();
        let mut i: usize = 0;
        while i < self.klass_lookup.len()
            invariant
                i <= self.klass_lookup@.len(),
                out@.len() == i,
                forall|j: int|
                    0 <= j < i ==> (#[trigger] out@[j]).name@ == self.klass_lookup@[j].name@
                        && out@[j].status@ == self.klass_lookup@[j].status@,
            decreases self.klass_lookup.len() - i,
        {
            let e = &self.klass_lookup[i];
            out.push(KlassEntry { name: e.name.clone(), status: e.status.clone() });
            i = i + 1;
        }
        let r = SharedKlassRepo { klass_lookup: out };
        proof {
            assert(entry_names(out@) =~= entry_names(self.klass_lookup@));
            assert forall|n: Seq<char>| #[trigger]
                first_from(entry_names(out@), n, 0) matches Some(j) ==> 0 <= j < out@.len() by {
                lemma_first_from_found(entry_names(out@), n, 0);
            }
            assert(r@ =~= self@);
        }
        r
    }
}

impl SharedKlassRepo {
    /// An empty repository.
    pub fn of() -> (r: SharedKlassRepo)
        ensures
            r@ == Map::<Seq<char>, StatusView>::empty(),
    {
        let r = SharedKlassRepo { klass_lookup: Vec::new() };
        proof {
            assert(r@ =~= Map::<Seq<char>, StatusView>::empty());
        }
        r
    }

    /// The position of the entry for `name`.
    fn find(&self, name: &String) -> (r: Option<usize>)
        ensures
            r matches Some(i) ==> first_from(entry_names(self.klass_lookup@), name@, 0) == Some(
                i as int,
            ) && i < self.klass_lookup@.len(),
            r is None ==> first_from(entry_names(self.klass_lookup@), name@, 0) is None,
            r is Some <==> self@.contains_key(name@),
    {
        let ghost ns = entry_names(self.klass_lookup@);
        let mut i: usize = 0;
        while i < self.klass_lookup.len()
            invariant
                ns == entry_names(self.klass_lookup@),
                i <= ns.len(),
                first_from(ns, name@, 0) == first_from(ns, name@, i as int),
            decreases self.klass_lookup.len() - i,
        {
            if str_eq(&self.klass_lookup[i].name, name) {
                return Some(i);
            }
            i = i + 1;
        }
        None
    }

    /// The class `klass_name`, when it has been loaded.
    pub fn lookup_klass(&self, klass_name: &String) -> (r: Result<OtKlass, JvmError>)
        ensures
            r is Ok <==> spec_lookup(self@, klass_name@) is Ok,
            r matches Ok(k) ==> spec_lookup(self@, klass_name@) == Ok::<KlassView, JvmError>(k@),
            r matches Err(e) ==> spec_lookup(self@, klass_name@) == Err::<KlassView, JvmError>(e),
    {
        match self.find(klass_name) {
            None => Err(JvmError::KlassNotFound),
            Some(i) => {
                proof {
                    lemma_first_from_found(entry_names(self.klass_lookup@), klass_name@, 0);
                }
                match &self.klass_lookup[i].status {
                    KlassLoadingStatus::Mentioned {} => Err(JvmError::KlassNotLoaded),
                    KlassLoadingStatus::Loaded { klass } => Ok(klass.clone()),
                    KlassLoadingStatus::Live { klass } => Ok(klass.clone()),
                }
            },
        }
    }

    /// Adds every name of `mentions` that the repository lacks, as mentioned.
    fn mention(&mut self, mentions: Vec<String>)
        ensures
            final(self)@ == mention_all(old(self)@, mentions@.map_values(|s: String| s@)),
    {
        let ghost names = mentions@.map_values(|s: String| s@);
        let ghost m0 = self@;
        let mut i: usize = 0;
        proof {
            assert(mention_all(m0, names.take(0)) =~= m0);
        }
        while i < mentions.len()
            invariant
                names == mentions@.map_values(|s: String| s@),
                i <= mentions@.len(),
                self@ == mention_all(m0, names.take(i as int)),
            decreases mentions.len() - i,
        {
            let klass_name = &mentions[i];
            proof {
                assert(names.take(i as int + 1) =~= names.take(i as int).push(klass_name@));
            }
            match self.find(klass_name) {
                None => {
                    let ghost es = self.klass_lookup@;
                    let e = KlassEntry { name: klass_name.clone(), status: KlassLoadingStatus::Mentioned {} };
                    proof {
                        lemma_entries_push(es, e);
                    }
                    self.klass_lookup.push(e);
                    proof {
                        let t = names.take(i as int);
                        assert(!m0.contains_key(klass_name@) && !t.contains(klass_name@));
                        assert forall|n: Seq<char>| #[trigger] t.push(klass_name@).contains(n) <==> (n
                            == klass_name@ || t.contains(n)) by {
                            lemma_seq_contains_after_push(t, klass_name@, n);
                        }
                        assert(mention_all(m0, t.push(klass_name@)) =~= mention_all(m0, t).insert(
                            klass_name@,
                            StatusView::Mentioned,
                        ));
                    }
                },
                Some(_) => {
                    proof {
                        let t = names.take(i as int);
                        assert forall|n: Seq<char>| #[trigger] t.push(klass_name@).contains(n) <==> (n
                            == klass_name@ || t.contains(n)) by {
                            lemma_seq_contains_after_push(t, klass_name@, n);
                        }
                        assert(mention_all(m0, t.push(klass_name@)) =~= mention_all(m0, t));
                    }
                },
            }
            i = i + 1;
        }
        proof {
            assert(names.take(mentions@.len() as int) =~= names);
        }
    }

    /// Adds class `k`. A class new to the repository is stored as loaded and
    /// every class its constant pool mentions is recorded as mentioned; a
    /// class only mentioned so far becomes loaded; a class already loaded is
    /// kept as it is. Fails, changing nothing, when a new class's constant
    /// pool names a class that does not resolve.
    pub fn add_klass(&mut self, k: &OtKlass) -> (r: Result<(), JvmError>)
        ensures
            adds_klass(old(self)@, *k, r, final(self)@),
    {
        let klass_name = k.get_name();
        match self.find(&klass_name) {
            Some(i) => {
                let mentioned_only = match &self.klass_lookup[i].status {
                    KlassLoadingStatus::Mentioned {} => true,
                    _ => false,
                };
                proof {
                    lemma_first_from_found(entry_names(self.klass_lookup@), klass_name@, 0);
                }
                if mentioned_only {
                    let ghost es = self.klass_lookup@;
                    let e = KlassEntry { name: klass_name, status: KlassLoadingStatus::Loaded { klass: k.clone() } };
                    proof {
                        lemma_entries_update(es, i as int, e);
                    }
                    self.klass_lookup.set(i, e);
                }
                Ok(())
            },
            None => {
                let mentioned = match k.get_mentioned_klasses() {
                    Ok(v) => v,
                    Err(e) => {
                        return Err(e);
                    },
                };
                let ghost es = self.klass_lookup@;
                let e = KlassEntry { name: klass_name, status: KlassLoadingStatus::Loaded { klass: k.clone() } };
                proof {
                    lemma_entries_push(es, e);
                }
                self.klass_lookup.push(e);
                self.mention(mentioned);
                Ok(())
            },
        }
    }

    /// The method registered last under `fq_name_desc` in class `klass_name`.
    pub fn lookup_method_exact(&self, klass_name: &String, fq_name_desc: String) -> (r: Result<
        OtMethod,
        JvmError,
    >)
        ensures
            r is Ok <==> spec_lookup_method(self@, klass_name@, fq_name_desc@) is Ok,
            r matches Ok(m) ==> spec_lookup_method(self@, klass_name@, fq_name_desc@) == Ok::<
                MethodView,
                JvmError,
            >(m@),
            r matches Err(e) ==> spec_lookup_method(self@, klass_name@, fq_name_desc@) == Err::<
                MethodView,
                JvmError,
            >(e),
    {
        let k = match self.lookup_klass(klass_name) {
            Ok(k) => k,
            Err(e) => {
                return Err(e);
            },
        };
        match k.get_method_by_name_and_desc(&fq_name_desc) {
            Some(m) => Ok(m.clone()),
            None => Err(JvmError::MethodNotFound),
        }
    }

    /// The method a virtual call through entry `m_idx` of class `klass_name`
    /// reaches: the class must be loaded, and the method is always the
    /// placeholder of `OtKlass::get_method_by_offset_virtual`.
    pub fn lookup_method_virtual(&self, klass_name: &String, m_idx: u16) -> (r: Result<
        OtMethod,
        JvmError,
    >)
        ensures
            r is Ok <==> spec_lookup(self@, klass_name@) is Ok,
            r matches Err(e) ==> spec_lookup(self@, klass_name@) == Err::<KlassView, JvmError>(e),
            r matches Ok(m) ==> m.spec_klass_name() == "DUMMY_KLASS"@ && m.spec_name_desc()
                == "DUMMY_METH"@ + seq![':'] + "DUMMY_DESC"@ && m.spec_flags() == 0
                && m.spec_code() == Seq::<u8>::empty() && m.spec_native_code() is None,
    {
        match self.lookup_klass(klass_name) {
            Ok(k) => Ok(k.get_method_by_offset_virtual(m_idx)),
            Err(e) => Err(e),
        }
    }

    /// The field that entry `idx` of class `klass_name`'s pool refers to (see
    /// `spec_lookup_field`).
    fn lookup_field(&self, klass_name: &String, idx: u16, statics: bool) -> (r: Result<
        OtField,
        JvmError,
    >)
        ensures
            r == spec_lookup_field(self@, klass_name@, idx, statics),
    {
        let current_klass = match self.lookup_klass(klass_name) {
            Ok(k) => k,
            Err(e) => {
                return Err(e);
            },
        };
        let fq_name_desc = match current_klass.cp_as_string(idx) {
            Ok(s) => s,
            Err(e) => {
                return Err(e);
            },
        };
        let target_klass_name = match SharedKlassRepo::klass_name_from_fq(&fq_name_desc) {
            Some(s) => s,
            None => {
                return Err(JvmError::KlassNameMissing);
            },
        };
        let target_klass = match self.lookup_klass(&target_klass_name) {
            Ok(k) => k,
            Err(e) => {
                return Err(e);
            },
        };
        let opt_f = if statics {
            target_klass.get_static_field_by_name_and_desc(&fq_name_desc)
        } else {
            target_klass.get_instance_field_by_name_and_desc(&fq_name_desc)
        };
        match opt_f {
            Some(f) => Ok(f.clone()),
            None => Err(JvmError::FieldNotFound),
        }
    }

    /// The static field that entry `idx` of class `klass_name`'s pool refers to.
    pub fn lookup_static_field(&self, klass_name: &String, idx: u16) -> (r: Result<OtField, JvmError>)
        ensures
            r == spec_lookup_field(self@, klass_name@, idx, true),
    {
        self.lookup_field(klass_name, idx, true)
    }

    /// The instance field that entry `idx` of class `klass_name`'s pool refers to.
    pub fn lookup_instance_field(&self, klass_name: &String, idx: u16) -> (r: Result<
        OtField,
        JvmError,
    >)
        ensures
            r == spec_lookup_field(self@, klass_name@, idx, false),
    {
        self.lookup_field(klass_name, idx, false)
    }

    /// Field offsets are not looked up: this is always 0.
    pub fn get_field_offset(&self, _kid: usize, _f: OtField) -> (r: usize)
        ensures
            r == 0,
    {
        0
    }

    /// Static storage is not kept here: this does nothing.
    pub fn put_static(&self, _klass_name: String, _f: OtField, _v: JvmValue) {
    }

    /// Installs `n_code` on the method `klass_name.name_desc` and marks the
    /// class live. Fails, changing nothing, when the class is not loaded or
    /// has no such method.
    pub fn install_native_method(&mut self, klass_name: &String, name_desc: &String, n_code: NativeMethod) -> (r:
        Result<(), JvmError>)
        ensures
            (r, final(self)@) == installs_native(old(self)@, klass_name@, name_desc@, n_code),
    {
        let mut k = match self.lookup_klass(klass_name) {
            Ok(k) => k,
            Err(e) => {
                return Err(e);
            },
        };
        let fq_name = join(klass_name.as_str(), ".", name_desc.as_str());
        proof {
            reveal_strlit(".");
            assert(fq_name@ =~= klass_name@ + seq!['.'] + name_desc@);
        }
        match k.set_native_method(fq_name, n_code) {
            Ok(()) => {},
            Err(e) => {
                return Err(e);
            },
        }
        match self.find(klass_name) {
            Some(i) => {
                let ghost es = self.klass_lookup@;
                let e = KlassEntry { name: klass_name.clone(), status: KlassLoadingStatus::Live { klass: k } };
                proof {
                    lemma_entries_update(es, i as int, e);
                }
                self.klass_lookup.set(i, e);
                Ok(())
            },
            None => Err(JvmError::KlassNotFound),
        }
    }

    /// Reads the class file `bytes` (named `name`) and adds the class.
    pub fn add_klass_bytes(&mut self, name: String, bytes: Vec<u8>) -> (r: Result<(), JvmError>)
        ensures
            adds_klass_bytes(old(self)@, bytes@, r, final(self)@),
            r is Ok ==> (spec_parse_class(bytes@) matches Ok(cf) && spec_lookup(
                final(self)@,
                class_name_at(cf.cp, cf.this_idx as int)->0,
            ) is Ok),
            forall|n: Seq<char>| old(self)@.contains_key(n) ==> #[trigger] final(self)@.contains_key(n),
    {
        let ghost b = bytes@;
        let mut parser = OtKlassParser::of(bytes, name);
        match parser.parse() {
            Ok(()) => {},
            Err(e) => {
                return Err(e);
            },
        }
        let ghost cf = spec_parse_class(b)->Ok_0;
        assert(parser.has_parsed(cf));
        let k = match parser.klass() {
            Ok(k) => k,
            Err(e) => {
                return Err(e);
            },
        };
        let r = self.add_klass(&k);
        proof {
            assert(klass_from_file(k@, cf));
        }
        r
    }

    /// Adds the class of each entry of `entries` in order (with
    /// `only_class_files`, only of those whose name ends in `.class`),
    /// stopping at the first that cannot be read or added.
    fn add_entries(&mut self, entries: &Vec<(String, Vec<u8>)>, only_class_files: bool) -> (r: Result<
        (),
        JvmError,
    >)
        ensures
            adds_entries(old(self)@, entries@, only_class_files, r, final(self)@),
            r is Ok ==> forall|i: int|
                0 <= i < entries@.len() && selected_entry(only_class_files, #[trigger] entries@[i].0@)
                    ==> spec_parse_class(entries@[i].1@) is Ok,
            r is Ok ==> forall|i: int|
                0 <= i < entries@.len() && selected_entry(only_class_files, #[trigger] entries@[i].0@)
                    ==> final(self)@.contains_key(archive_class_name(entries@[i].1@)),
            r is Err ==> exists|i: int|
                0 <= i < entries@.len() && selected_entry(only_class_files, #[trigger] entries@[i].0@),
            forall|n: Seq<char>| old(self)@.contains_key(n) ==> #[trigger] final(self)@.contains_key(n),
    {
        let ghost m0 = self@;
        let ghost mut ms: Seq<Map<Seq<char>, StatusView>> = seq![m0];
        let mut i: usize = 0;
        while i < entries.len()
            invariant
                i <= entries@.len(),
                m0 == old(self)@,
                entries_chain(m0, entries@, only_class_files, ms, i as int),
                ms.last() == self@,
                forall|n: Seq<char>| m0.contains_key(n) ==> #[trigger] self@.contains_key(n),
                forall|j: int|
                    0 <= j < i && selected_entry(only_class_files, #[trigger] entries@[j].0@)
                        ==> self@.contains_key(archive_class_name(entries@[j].1@)),
                forall|j: int|
                    0 <= j < i && selected_entry(only_class_files, #[trigger] entries@[j].0@)
                        ==> spec_parse_class(entries@[j].1@) is Ok,
            decreases entries.len() - i,
        {
            let ghost before = self@;
            let (name, bytes) = (&entries[i].0, &entries[i].1);
            if !only_class_files || is_class_file(name) {
                let copy = slice_to_vec(bytes.as_slice());
                match self.add_klass_bytes(name.clone(), copy) {
                    Ok(()) => {},
                    Err(e) => {
                        proof {
                            assert(entry_step(ms[i as int], entries@[i as int], only_class_files, Err(e), self@));
                            assert(entries_chain(m0, entries@, only_class_files, ms, i as int));
                        }
                        return Err(e);
                    },
                }
            }
            proof {
                let ms0 = ms;
                assert(entry_step(ms0[i as int], entries@[i as int], only_class_files, Ok(()), self@));
                ms = ms0.push(self@);
                assert forall|j: int|
                    #![trigger entries@[j]]
                    0 <= j < i + 1 implies entry_step(ms[j], entries@[j], only_class_files, Ok(()), ms[j + 1]) by {
                    if j < i {
                        assert(ms[j] == ms0[j] && ms[j + 1] == ms0[j + 1]);
                    }
                }
            }
            i = i + 1;
        }
        proof {
            assert(entries_chain(m0, entries@, only_class_files, ms, entries@.len() as int));
        }
        Ok(())
    }

    /// Adds the class of every entry of an archive whose name ends in
    /// `.class`, in order; other entries are skipped. Stops at the first
    /// class that cannot be read or added.
    pub fn add_klasses_from_archive(&mut self, entries: &Vec<(String, Vec<u8>)>) -> (r: Result<
        (),
        JvmError,
    >)
        ensures
            adds_entries(old(self)@, entries@, true, r, final(self)@),
            r is Ok ==> forall|i: int|
                0 <= i < entries@.len() && is_class_file_name(#[trigger] entries@[i].0@)
                    ==> spec_parse_class(entries@[i].1@) is Ok,
            r is Ok ==> forall|i: int|
                0 <= i < entries@.len() && is_class_file_name(#[trigger] entries@[i].0@)
                    ==> final(self)@.contains_key(archive_class_name(entries@[i].1@)),
            r is Err ==> exists|i: int|
                0 <= i < entries@.len() && is_class_file_name(#[trigger] entries@[i].0@),
            forall|n: Seq<char>| old(self)@.contains_key(n) ==> #[trigger] final(self)@.contains_key(n),
    {
        self.add_entries(entries, true)
    }

    /// Loads the system classes from the entries of their archive, then
    /// installs the native code of `java/lang/Object.hashCode:()I` and
    /// `java/lang/System.currentTimeMillis:()J`, which makes those two
    /// classes live, then runs the static initializer of
    /// `java/io/FileDescriptor` on `heap` (its value is dropped).
    pub fn bootstrap(&mut self, heap: &mut SharedSimpleHeap, entries: &Vec<(String, Vec<u8>)>) -> (r:
        Result<(), JvmError>)
        requires
            old(heap).wf(),
        ensures
            final(heap).wf(),
            bootstraps(old(self)@, entries@, old(heap)@, r, final(self)@, final(heap)@),
            r is Ok ==> forall|i: int|
                0 <= i < entries@.len() && is_class_file_name(#[trigger] entries@[i].0@)
                    ==> spec_parse_class(entries@[i].1@) is Ok,
            r is Ok ==> final(self)@.contains_key("java/lang/Object"@) && final(self)@["java/lang/Object"@] is Live,
            r is Ok ==> final(self)@.contains_key("java/lang/System"@) && final(self)@["java/lang/System"@] is Live,
    {
        match self.add_klasses_from_archive(entries) {
            Ok(()) => {},
            Err(e) => {
                return Err(e);
            },
        }
        let ghost archived = self@;
        let object = String::from_str("java/lang/Object");
        let system = String::from_str("java/lang/System");
        proof {
            reveal_strlit("java/lang/Object");
            reveal_strlit("java/lang/System");
        }
        let hash_code = String::from_str("hashCode:()I");
        match self.install_native_method(&object, &hash_code, NativeMethod::ObjectHashCode) {
            Ok(()) => {},
            Err(e) => {
                proof {
                    assert(adds_entries(old(self)@, entries@, true, Ok(()), archived));
                    assert((Err::<(), JvmError>(e), self@) == installs_native(
                        archived,
                        "java/lang/Object"@,
                        "hashCode:()I"@,
                        NativeMethod::ObjectHashCode,
                    ));
                }
                return Err(e);
            },
        }
        let ghost with_hash_code = self@;
        let millis = String::from_str("currentTimeMillis:()J");
        let r2 = self.install_native_method(&system, &millis, NativeMethod::SystemCurrentTimeMillis);
        proof {
            assert(adds_entries(old(self)@, entries@, true, Ok(()), archived));
            assert((Ok::<(), JvmError>(()), with_hash_code) == installs_native(
                archived,
                "java/lang/Object"@,
                "hashCode:()I"@,
                NativeMethod::ObjectHashCode,
            ));
            assert((r2, self@) == installs_native(
                with_hash_code,
                "java/lang/System"@,
                "currentTimeMillis:()J"@,
                NativeMethod::SystemCurrentTimeMillis,
            ));
            assert("java/lang/Object"@[10] != "java/lang/System"@[10]);
        }
        match r2 {
            Ok(()) => {},
            Err(e) => {
                return Err(e);
            },
        }
        let ghost installed = self@;
        let file_descriptor = String::from_str("java/io/FileDescriptor");
        let rc = run_clinit_method(self, heap, &file_descriptor);
        proof {
            assert(runs_clinit(installed, "java/io/FileDescriptor"@, old(heap)@, rc, heap@));
        }
        match rc {
            Ok(_) => Ok(()),
            Err(e) => Err(e),
        }
    }

    /// A repository with the system classes of `boot_entries` (see
    /// `bootstrap`, which may allocate on `heap`) and the program's classes: with a class path, the
    /// `.class` entries of `user_entries` (the archive it names); without
    /// one, every entry of `user_entries` (the class file of the class the
    /// options name).
    pub fn start(
        options: &Options,
        heap: &mut SharedSimpleHeap,
        boot_entries: &Vec<(String, Vec<u8>)>,
        user_entries: &Vec<(String, Vec<u8>)>,
    ) -> (r: Result<SharedKlassRepo, JvmError>)
        requires
            old(heap).wf(),
        ensures
            final(heap).wf(),
            r matches Ok(repo) ==> exists|m: Map<Seq<char>, StatusView>|
                #[trigger] bootstraps(Map::empty(), boot_entries@, old(heap)@, Ok(()), m, final(heap)@)
                    && adds_entries(m, user_entries@, options.classpath is Some, Ok(()), repo@),
            r matches Err(e) ==> (exists|m: Map<Seq<char>, StatusView>|
                #[trigger] bootstraps(Map::empty(), boot_entries@, old(heap)@, Err(e), m, final(heap)@))
                || (exists|m: Map<Seq<char>, StatusView>, m1: Map<Seq<char>, StatusView>|
                #[trigger] bootstraps(Map::empty(), boot_entries@, old(heap)@, Ok(()), m, final(heap)@)
                    && #[trigger] adds_entries(m, user_entries@, options.classpath is Some, Err(e), m1)),
            r matches Ok(repo) ==> repo@.contains_key("java/lang/Object"@) && repo@.contains_key(
                "java/lang/System"@,
            ),
            r is Ok && options.classpath is None ==> forall|i: int|
                0 <= i < user_entries@.len() ==> spec_parse_class(#[trigger] user_entries@[i].1@) is Ok,
    {
        let mut repo = SharedKlassRepo::of();
        match repo.bootstrap(heap, boot_entries) {
            Ok(()) => {},
            Err(e) => {
                return Err(e);
            },
        }
        let only_class_files = match &options.classpath {
            Some(_) => true,
            None => false,
        };
        match repo.add_entries(user_entries, only_class_files) {
            Ok(()) => {},
            Err(e) => {
                return Err(e);
            },
        }
        proof {
            assert forall|i: int|
                0 <= i < user_entries@.len() && !only_class_files implies spec_parse_class(
                #[trigger] user_entries@[i].1@,
            ) is Ok by {
                assert(selected_entry(only_class_files, user_entries@[i].0@));
            }
        }
        Ok(repo)
    }
}

/// The name of the class that a class file declares, when it can be read.
pub open spec fn archive_class_name(bytes: Seq<u8>) -> Seq<char> {
    match spec_parse_class(bytes) {
        Ok(cf) => class_name_at(cf.cp, cf.this_idx as int)->0,
        Err(_) => Seq::empty(),
    }
}

/// The name of a class file: it ends in `.class`.
pub open spec fn is_class_file_name(name: Seq<char>) -> bool {
    name.len() >= 6 && name.subrange(name.len() - 6, name.len() as int) == ".class"@
}

/// Whether `name` ends in `.class`.
fn is_class_file(name: &String) -> (r: bool)
    ensures
        r == is_class_file_name(name@),
{
    let cs = chars_of(name.as_str());
    let n = cs.len();
    proof {
        reveal_strlit(".class");
    }
    if n < 6 {
        return false;
    }
    let r = cs[n - 6] == '.' && cs[n - 5] == 'c' && cs[n - 4] == 'l' && cs[n - 3] == 'a'
        && cs[n - 2] == 's' && cs[n - 1] == 's';
    proof {
        if r {
            assert(name@.subrange(n - 6, n as int) =~= ".class"@);
        } else {
            assert(".class"@[0] == '.');
            if name@.subrange(n - 6, n as int) == ".class"@ {
                assert(name@.subrange(n - 6, n as int)[0] == name@[n - 6]);
                assert(name@.subrange(n - 6, n as int)[1] == name@[n - 5]);
                assert(name@.subrange(n - 6, n as int)[2] == name@[n - 4]);
                assert(name@.subrange(n - 6, n as int)[3] == name@[n - 3]);
                assert(name@.subrange(n - 6, n as int)[4] == name@[n - 2]);
                assert(name@.subrange(n - 6, n as int)[5] == name@[n - 1]);
            }
        }
    }
    r
}

/// After a class is added to a repository that did not know it, or knew it
/// only as mentioned, looking it up gives back that class.
pub proof fn law_lookup_after_add(m: Map<Seq<char>, StatusView>, k: KlassView, names: Seq<Seq<char>>)
    ensures
        !m.contains_key(k.name) ==> spec_lookup(
            mention_all(m.insert(k.name, StatusView::Loaded(k)), names),
            k.name,
        ) == Ok::<KlassView, JvmError>(k),
        m.contains_key(k.name) && m[k.name] is Mentioned ==> spec_lookup(
            m.insert(k.name, StatusView::Loaded(k)),
            k.name,
        ) == Ok::<KlassView, JvmError>(k),
{
}

/// Recording mentions never changes what the repository already holds, and
/// every mentioned name is then known.
pub proof fn law_mention_keeps_entries(m: Map<Seq<char>, StatusView>, names: Seq<Seq<char>>, n: Seq<char>)
    ensures
        m.contains_key(n) ==> mention_all(m, names).contains_key(n) && mention_all(m, names)[n]
            == m[n],
        names.contains(n) ==> mention_all(m, names).contains_key(n),
        !m.contains_key(n) && names.contains(n) ==> mention_all(m, names)[n] is Mentioned,
{
}

/// Adding a class whose name is already loaded or live changes nothing:
/// the class added first is the one kept.
pub proof fn law_add_again_keeps_the_first(
    m0: Map<Seq<char>, StatusView>,
    k: OtKlass,
    r: Result<(), JvmError>,
    m1: Map<Seq<char>, StatusView>,
)
    requires
        m0.contains_key(k@.name),
        !(m0[k@.name] is Mentioned),
        adds_klass(m0, k, r, m1),
    ensures
        r is Ok,
        m1 == m0,
        spec_lookup(m1, k@.name) == spec_lookup(m0, k@.name),
{
}

} // verus!
