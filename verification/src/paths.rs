//! Paths as the workspace logic reads them, and what was seen of one on disk.

use vstd::prelude::*;
use vstd::string::*;

use crate::text::opt_string;

verus! {

/// What a path component stands for.
#[derive(Clone, Copy, Debug, PartialEq, Eq, Structural)]
pub enum ComponentKind {
    Prefix,
    RootDir,
    CurDir,
    ParentDir,
    Normal,
}

/// One component of a path: its kind, the bytes that identify it, and its text for display.
///
/// The bytes decide equality. The text may be lossy, so two different components can share it.
#[derive(Debug)]
pub struct PathComponent {
    pub kind: ComponentKind,
    pub encoded: Vec<u8>,
    pub text: String,
}

/// A path: its text for display and its components in order. See [`PathView::well_formed`] for
/// what ties them together.
#[derive(Debug)]
pub struct WorkspacePath {
    pub text: String,
    pub components: Vec<PathComponent>,
}

/// The mathematical content of a [`PathComponent`].
#[verifier::ext_equal]
pub struct ComponentView {
    pub kind: ComponentKind,
    pub encoded: Seq<u8>,
    pub text: Seq<char>,
}

/// The mathematical content of a [`WorkspacePath`].
#[verifier::ext_equal]
pub struct PathView {
    pub text: Seq<char>,
    pub components: Seq<ComponentView>,
}

impl ComponentView {
    /// What identifies a component.
    pub open spec fn key(self) -> (ComponentKind, Seq<u8>) {
        (self.kind, self.encoded)
    }

    /// A component carries bytes exactly where its kind alone does not say all.
    pub open spec fn well_formed(self) -> bool {
        self.encoded.len() > 0 <==> self.kind == ComponentKind::Prefix || self.kind
            == ComponentKind::Normal
    }
}

impl PathView {
    /// The path is one that can be written down: only the empty path has an empty text, every
    /// component carries the bytes that it should, and prefixes and roots stand in front.
    pub open spec fn well_formed(self) -> bool {
        &&& self.components.len() == 0 <==> self.text.len() == 0
        &&& forall|i: int|
            0 <= i < self.components.len() ==> (#[trigger] self.components[i]).well_formed()
        &&& forall|i: int|
            0 < i < self.components.len() ==> (#[trigger] self.components[i]).kind
                != ComponentKind::Prefix
        &&& forall|i: int|
            0 < i < self.components.len() && (#[trigger] self.components[i]).kind
                == ComponentKind::RootDir ==> i == 1 && self.components[0].kind
                == ComponentKind::Prefix
    }

    /// What identifies a path: the keys of its components in order.
    pub open spec fn key(self) -> Seq<(ComponentKind, Seq<u8>)> {
        Seq::new(self.components.len(), |i: int| self.components[i].key())
    }

    /// Two paths are the same when their components are, whatever their texts.
    pub open spec fn same(self, other: PathView) -> bool {
        self.key() =~= other.key()
    }

    /// `base` is a prefix of this path, counted in whole components.
    pub open spec fn within(self, base: PathView) -> bool {
        base.key().is_prefix_of(self.key())
    }

    /// The text of the last component, if that is a normal one.
    pub open spec fn file_name(self) -> Option<Seq<char>> {
        if self.components.len() > 0 && self.components.last().kind == ComponentKind::Normal {
            Some(self.components.last().text)
        } else {
            None
        }
    }

    /// The file name without its extension.
    pub open spec fn file_stem(self) -> Option<Seq<char>> {
        match self.file_name() {
            Some(name) => Some(stem_of(name)),
            None => None,
        }
    }
}

/// The part of a file name before its last dot. A name without a dot, or with none but a leading
/// one, is all stem.
pub open spec fn stem_of(name: Seq<char>) -> Seq<char> {
    match name.index_of_last('.') {
        Some(dot) if dot > 0 => name.take(dot),
        _ => name,
    }
}

impl View for PathComponent {
    type V = ComponentView;

    open spec fn view(&self) -> ComponentView {
        ComponentView { kind: self.kind, encoded: self.encoded@, text: self.text@ }
    }
}

impl View for WorkspacePath {
    type V = PathView;

    open spec fn view(&self) -> PathView {
        PathView {
            text: self.text@,
            components: Seq::new(self.components@.len(), |i: int| self.components@[i]@),
        }
    }
}

impl Clone for PathComponent {
    fn clone(&self) -> (copy: Self)
        ensures
            copy@ == self@,
    {
        PathComponent {
            kind: self.kind,
            encoded: copy_bytes(&self.encoded),
            text: self.text.clone(),
        }
    }
}

impl Clone for WorkspacePath {
    fn clone(&self) -> (copy: Self)
        ensures
            copy@ == self@,
            self@.well_formed() ==> copy@.well_formed(),
    {
        let mut components: Vec<PathComponent> = Vec::new();
        let mut i: usize = 0;
        while i < self.components.len()
            invariant
                i <= self.components@.len(),
                components@.len() == i,
                forall|j: int| 0 <= j < i ==> (#[trigger] components@[j])@ == self.components@[j]@,
            decreases self.components@.len() - i,
        {
            components.push(self.components[i].clone());
            i += 1;
        }
        let copy = WorkspacePath { text: self.text.clone(), components };
        assert(copy@.components =~= self@.components);
        copy
    }
}

fn copy_bytes(bytes: &Vec<u8>) -> (copy: Vec<u8>)
    ensures
        copy@ == bytes@,
{
    let mut copy: Vec<u8> = Vec::new();
    let mut i: usize = 0;
    while i < bytes.len()
        invariant
            i <= bytes@.len(),
            copy@ == bytes@.take(i as int),
        decreases bytes@.len() - i,
    {
        copy.push(bytes[i]);
        i += 1;
    }
    assert(copy@ == bytes@);
    copy
}

fn bytes_equal(a: &Vec<u8>, b: &Vec<u8>) -> (equal: bool)
    ensures
        equal == (a@ == b@),
{
    if a.len() != b.len() {
        return false;
    }
    let mut i: usize = 0;
    while i < a.len()
        invariant
            i <= a@.len(),
            a@.len() == b@.len(),
            a@.take(i as int) == b@.take(i as int),
        decreases a@.len() - i,
    {
        if a[i] != b[i] {
            return false;
        }
        assert(a@.take(i + 1) == a@.take(i as int).push(a@[i as int]));
        assert(b@.take(i + 1) == b@.take(i as int).push(b@[i as int]));
        i += 1;
    }
    assert(a@.take(i as int) == a@ && b@.take(i as int) == b@);
    true
}

impl PathComponent {
    /// Whether two components are the same one, by kind and bytes.
    pub fn same(&self, other: &PathComponent) -> (same: bool)
        ensures
            same == (self@.key() == other@.key()),
    {
        self.kind == other.kind && bytes_equal(&self.encoded, &other.encoded)
    }
}

impl WorkspacePath {
    /// Whether two paths are the same, component by component.
    pub fn same(&self, other: &WorkspacePath) -> (same: bool)
        ensures
            same == self@.same(other@),
    {
        self.components.len() == other.components.len() && self.starts_with(other)
    }

    /// Whether `base` is a prefix of this path, counted in whole components.
    pub fn starts_with(&self, base: &WorkspacePath) -> (within: bool)
        ensures
            within == self@.within(base@),
            self@.components.len() == base@.components.len() ==> within == self@.same(base@),
    {
        let ghost mine = self@.key();
        let ghost theirs = base@.key();
        if self.components.len() < base.components.len() {
            return false;
        }
        let mut i: usize = 0;
        while i < base.components.len()
            invariant
                i <= base.components@.len() <= self.components@.len(),
                mine == self@.key(),
                theirs == base@.key(),
                forall|j: int| 0 <= j < i ==> theirs[j] == mine[j],
            decreases base.components@.len() - i,
        {
            if !base.components[i].same(&self.components[i]) {
                assert(theirs[i as int] != mine[i as int]);
                assert(theirs.is_prefix_of(mine) ==> theirs[i as int] == mine[i as int]) by {
                    assert(mine.subrange(0, theirs.len() as int)[i as int] == mine[i as int]);
                }
                return false;
            }
            assert(theirs[i as int] == mine[i as int]);
            i += 1;
        }
        assert(theirs =~= mine.subrange(0, theirs.len() as int));
        true
    }

    /// The text of the last component, if that is a normal one.
    pub fn file_name(&self) -> (name: Option<String>)
        ensures
            match name {
                Some(name) => self@.file_name() == Some(name@),
                None => self@.file_name() is None,
            },
    {
        let count: usize = self.components.len();
        if count == 0 {
            return None;
        }
        let last = &self.components[count - 1];
        assert(self@.components.last() == last@);
        match last.kind {
            ComponentKind::Normal => Some(last.text.clone()),
            _ => None,
        }
    }

    /// The file name without its extension.
    pub fn file_stem(&self) -> (stem: Option<String>)
        ensures
            opt_string(stem) == self@.file_stem(),
    {
        match self.file_name() {
            Some(name) => Some(stem(name.as_str()).to_owned()),
            None => None,
        }
    }
}

/// The part of a file name before its last dot, or all of it where it has no dot but a leading
/// one.
fn stem<'a>(name: &'a str) -> (stem: &'a str)
    ensures
        stem@ == stem_of(name@),
{
    let count: usize = name.unicode_len();
    let mut dot: usize = count;
    while dot > 0 && name.get_char(dot - 1) != '.'
        invariant
            dot <= count,
            count == name@.len(),
            forall|i: int| dot <= i < count ==> name@[i] != '.',
        decreases dot,
    {
        dot -= 1;
    }
    proof {
        name@.index_of_last_ensures('.');
        if dot > 0 {
            assert(name@[dot - 1] == '.');
        }
    }
    if dot <= 1 {
        name
    } else {
        name.substring_char(0, dot - 1)
    }
}

impl PartialEq for WorkspacePath {
    fn eq(&self, other: &Self) -> (equal: bool) {
        self.same(other)
    }
}

impl vstd::std_specs::cmp::PartialEqSpecImpl for WorkspacePath {
    open spec fn obeys_eq_spec() -> bool {
        true
    }

    open spec fn eq_spec(&self, other: &Self) -> bool {
        self@.same(other@)
    }
}

/// What was seen of one path on disk.
#[derive(Debug)]
pub struct PathProbe {
    pub exists: bool,
    pub is_dir: bool,
    pub is_file: bool,
    /// The canonical form of the path, or the text of the error that stood in its way.
    pub canonical: Result<WorkspacePath, String>,
}

/// The mathematical content of a [`PathProbe`].
pub struct ProbeView {
    pub exists: bool,
    pub is_dir: bool,
    pub is_file: bool,
    pub canonical: Result<PathView, Seq<char>>,
}

impl View for PathProbe {
    type V = ProbeView;

    open spec fn view(&self) -> ProbeView {
        ProbeView {
            exists: self.exists,
            is_dir: self.is_dir,
            is_file: self.is_file,
            canonical: match self.canonical {
                Ok(path) => Ok(path@),
                Err(text) => Err(text@),
            },
        }
    }
}

impl ProbeView {
    /// What can be seen of one path at one time: what is a directory or a file exists, nothing is
    /// both, and the canonical form is well formed.
    pub open spec fn well_formed(self) -> bool {
        &&& self.is_dir || self.is_file ==> self.exists
        &&& !(self.is_dir && self.is_file)
        &&& self.canonical matches Ok(canonical) ==> canonical.well_formed()
    }
}

/// A disk at one time, as what is seen of each path: every sight is well formed, and of a
/// canonical form the same is seen as of the path that it was found for, itself being its
/// canonical form.
pub open spec fn lawful_disk(disk: spec_fn(PathView) -> ProbeView) -> bool {
    forall|path: PathView|
        {
            let seen = #[trigger] disk(path);
            &&& seen.well_formed()
            &&& seen.canonical matches Ok(canonical) ==> disk(canonical) == seen
        }
}

/// Being the same path is an equivalence.
pub proof fn same_path_is_an_equivalence(a: PathView, b: PathView, c: PathView)
    ensures
        a.same(a),
        a.same(b) ==> b.same(a),
        a.same(b) && b.same(c) ==> a.same(c),
{
}

/// Of two well-formed paths that are the same, one is empty exactly where the other is, and they
/// carry their names in the same places.
pub proof fn same_paths_have_the_same_shape(a: PathView, b: PathView)
    requires
        a.well_formed(),
        b.well_formed(),
        a.same(b),
    ensures
        a.text.len() == 0 <==> b.text.len() == 0,
        a.file_name() is Some <==> b.file_name() is Some,
{
    let n = a.components.len() as int;
    assert(a.key().len() == b.key().len());
    if n > 0 {
        assert(a.key()[n - 1] == b.key()[n - 1]);
    }
}

/// Lying within a directory is reflexive and transitive, and mutual only between the same paths.
pub proof fn within_is_a_partial_order(a: PathView, b: PathView, c: PathView)
    ensures
        a.within(a),
        a.within(b) && b.within(c) ==> a.within(c),
        a.within(b) && b.within(a) ==> a.same(b),
        a.same(b) ==> a.within(b),
{
    assert(a.key().subrange(0, a.key().len() as int) =~= a.key());
    if a.within(b) && b.within(c) {
        let n = c.key().len() as int;
        let m = b.key().len() as int;
        assert(a.key().subrange(0, m).subrange(0, n) =~= a.key().subrange(0, n));
    }
    if a.within(b) && b.within(a) {
        assert(b.key().subrange(0, b.key().len() as int) =~= b.key());
        assert(a.key().subrange(0, a.key().len() as int) =~= a.key());
    }
}

/// The content of a path is all that is in it: its text, and of each component the kind, the bytes
/// and the text.
pub proof fn path_content_is_the_whole_path(path: WorkspacePath)
    ensures
        path@.text == path.text@,
        path@.components.len() == path.components@.len(),
        forall|i: int|
            0 <= i < path.components@.len() ==> {
                &&& (#[trigger] path@.components[i]).kind == path.components@[i].kind
                &&& path@.components[i].encoded == path.components@[i].encoded@
                &&& path@.components[i].text == path.components@[i].text@
            },
{
}

/// The content of a probe is all that was seen.
pub proof fn probe_content_is_the_whole_sight(probe: PathProbe)
    ensures
        probe@.exists == probe.exists,
        probe@.is_dir == probe.is_dir,
        probe@.is_file == probe.is_file,
        probe.canonical matches Ok(path) ==> probe@.canonical == Ok::<PathView, Seq<char>>(path@),
        probe.canonical matches Err(text) ==> probe@.canonical == Err::<PathView, Seq<char>>(text@),
{
}

/// Two paths are the same exactly when they have equally many components that agree, one by one,
/// in kind and bytes. Their texts do not count.
pub proof fn same_paths_agree_in_every_component(a: PathView, b: PathView)
    ensures
        a.same(b) <==> a.components.len() == b.components.len() && (forall|i: int|
            0 <= i < a.components.len() ==> (#[trigger] a.components[i]).kind
                == b.components[i].kind && a.components[i].encoded == b.components[i].encoded),
{
    if a.same(b) {
        assert(a.key().len() == b.key().len());
        assert forall|i: int| 0 <= i < a.components.len() implies (#[trigger] a.components[i]).kind
            == b.components[i].kind && a.components[i].encoded == b.components[i].encoded by {
            assert(a.key()[i] == b.key()[i]);
        }
    }
    if a.components.len() == b.components.len() && (forall|i: int|
        0 <= i < a.components.len() ==> (#[trigger] a.components[i]).kind == b.components[i].kind
            && a.components[i].encoded == b.components[i].encoded) {
        assert forall|i: int| 0 <= i < a.key().len() implies a.key()[i] == b.key()[i] by {
            assert(a.components[i].kind == b.components[i].kind);
        }
        assert(a.key() =~= b.key());
    }
}

/// A path lies within a directory exactly when it begins with all the components of the directory,
/// however many more it has.
pub proof fn paths_within_begin_with_the_directory(path: PathView, directory: PathView)
    ensures
        path.within(directory) <==> directory.components.len() <= path.components.len() && (forall|
            i: int,
        |
            0 <= i < directory.components.len() ==> (#[trigger] directory.components[i]).kind
                == path.components[i].kind && directory.components[i].encoded
                == path.components[i].encoded),
{
    let n = directory.components.len() as int;
    if path.within(directory) {
        assert(directory.key().len() <= path.key().len());
        assert forall|i: int| 0 <= i < n implies (#[trigger] directory.components[i]).kind
            == path.components[i].kind && directory.components[i].encoded
            == path.components[i].encoded by {
            assert(directory.key()[i] == path.key().subrange(0, n)[i]);
            assert(path.key().subrange(0, n)[i] == path.key()[i]);
        }
    }
    if n <= path.components.len() && (forall|i: int|
        0 <= i < n ==> (#[trigger] directory.components[i]).kind == path.components[i].kind
            && directory.components[i].encoded == path.components[i].encoded) {
        assert forall|i: int| 0 <= i < n implies directory.key()[i] == path.key().subrange(
            0,
            n,
        )[i] by {
            assert(directory.components[i].kind == path.components[i].kind);
        }
        assert(directory.key() =~= path.key().subrange(0, n));
    }
}

/// A path that was made longer by a normal component has the text of that component as its file
/// name. A path that ends in anything else, or in nothing, has no file name.
pub proof fn file_name_is_the_last_normal_component(
    text: Seq<char>,
    leading: Seq<ComponentView>,
    last: ComponentView,
)
    ensures
        (PathView { text, components: leading.push(last) }).file_name() == if last.kind
            == ComponentKind::Normal {
            Some(last.text)
        } else {
            None
        },
        (PathView { text, components: Seq::empty() }).file_name() is None,
{
    assert(leading.push(last).last() == last);
}

/// What stands behind the last dot of a file name is not part of its stem, and everything before
/// it is. A name without a dot is all stem, and so is one whose only dot leads it.
pub proof fn stem_ends_before_the_last_dot(base: Seq<char>, extension: Seq<char>)
    requires
        !extension.contains('.'),
    ensures
        base.len() > 0 ==> stem_of(base.push('.') + extension) == base,
        stem_of(seq!['.'] + extension) == seq!['.'] + extension,
        stem_of(extension) == extension,
{
    let dotted = base.push('.') + extension;
    let dot = base.len() as int;
    assert(dotted[dot] == '.');
    assert forall|j: int| dot < j < dotted.len() implies dotted[j] != '.' by {
        assert(dotted[j] == extension[j - dot - 1]);
    }
    dotted.index_of_last_ensures('.');
    assert(dotted.contains('.'));
    assert(dotted.take(dot) =~= base);
    let hidden = seq!['.'] + extension;
    assert(hidden[0] == '.');
    assert forall|j: int| 0 < j < hidden.len() implies hidden[j] != '.' by {
        assert(hidden[j] == extension[j - 1]);
    }
    hidden.index_of_last_ensures('.');
    extension.index_of_last_ensures('.');
}

/// The stem of a path is that of its file name; without a file name there is none.
pub proof fn file_stem_comes_from_the_file_name(path: PathView)
    ensures
        path.file_name() is None <==> path.file_stem() is None,
        path.file_name() matches Some(name) ==> path.file_stem() == Some(stem_of(name)),
{
}

} // verus!
