//! Paths as the system sees them: the bytes that name a file, and the components that the
//! system splits them into. Paths are equal where their components are, however they are
//! spelled.

use vstd::prelude::*;

verus! {

/// A component of a path.
#[derive(Debug, Clone)]
pub enum PathComponent {
    /// What stands before the root on some systems, such as a drive. Equal prefixes have
    /// equal bytes here.
    Prefix(Vec<u8>),
    RootDir,
    CurDir,
    ParentDir,
    Normal(Vec<u8>),
}

/// Mathematical counterpart of [`PathComponent`].
#[verifier::ext_equal]
pub enum ComponentView {
    Prefix(Seq<u8>),
    RootDir,
    CurDir,
    ParentDir,
    Normal(Seq<u8>),
}

impl View for PathComponent {
    type V = ComponentView;

    open spec fn view(&self) -> ComponentView {
        match *self {
            PathComponent::Prefix(bytes) => ComponentView::Prefix(bytes@),
            PathComponent::RootDir => ComponentView::RootDir,
            PathComponent::CurDir => ComponentView::CurDir,
            PathComponent::ParentDir => ComponentView::ParentDir,
            PathComponent::Normal(bytes) => ComponentView::Normal(bytes@),
        }
    }
}

/// A path: its bytes, and how the system splits them.
#[derive(Debug, Clone)]
pub struct MediaPath {
    pub bytes: Vec<u8>,
    pub components: Vec<PathComponent>,
}

/// Mathematical counterpart of [`MediaPath`].
#[verifier::ext_equal]
pub struct PathView {
    pub bytes: Seq<u8>,
    pub components: Seq<ComponentView>,
}

impl View for MediaPath {
    type V = PathView;

    open spec fn view(&self) -> PathView {
        PathView {
            bytes: self.bytes@,
            components: Seq::new(self.components@.len(), |i: int| self.components@[i]@),
        }
    }
}

/// Whether two paths are equal: they have the same components, in the same order.
pub open spec fn same_path(a: PathView, b: PathView) -> bool {
    a.components == b.components
}

/// The path that a plain command name in ASCII is: one component.
pub open spec fn command_path(name: Seq<char>) -> PathView {
    let bytes = Seq::new(name.len(), |i: int| name[i] as u8);
    PathView { bytes, components: seq![ComponentView::Normal(bytes)] }
}

fn same_bytes(a: &Vec<u8>, b: &Vec<u8>) -> (r: bool)
    ensures
        r == (a@ == b@),
{
    if a.len() != b.len() {
        return false;
    }
    let mut i: usize = 0;
    while i < a.len()
        invariant
            i <= a@.len() == b@.len(),
            forall|j: int| 0 <= j < i ==> a@[j] == b@[j],
        decreases a@.len() - i,
    {
        if a[i] != b[i] {
            assert(a@[i as int] != b@[i as int]);
            return false;
        }
        i += 1;
    }
    assert(a@ =~= b@);
    true
}

fn copy_bytes(bytes: &Vec<u8>) -> (r: Vec<u8>)
    ensures
        r@ == bytes@,
{
    let mut out: Vec<u8> = Vec::new();
    let mut i: usize = 0;
    while i < bytes.len()
        invariant
            i <= bytes@.len(),
            out@ == bytes@.take(i as int),
        decreases bytes@.len() - i,
    {
        out.push(bytes[i]);
        assert(out@ =~= bytes@.take(i + 1));
        i += 1;
    }
    assert(bytes@.take(bytes@.len() as int) =~= bytes@);
    out
}

impl PathComponent {
    /// Whether two components are equal.
    pub fn same(&self, other: &PathComponent) -> (r: bool)
        ensures
            r == (self@ == other@),
    {
        match (self, other) {
            (PathComponent::Prefix(a), PathComponent::Prefix(b)) => same_bytes(a, b),
            (PathComponent::RootDir, PathComponent::RootDir) => true,
            (PathComponent::CurDir, PathComponent::CurDir) => true,
            (PathComponent::ParentDir, PathComponent::ParentDir) => true,
            (PathComponent::Normal(a), PathComponent::Normal(b)) => same_bytes(a, b),
            _ => false,
        }
    }

    fn duplicate(&self) -> (r: PathComponent)
        ensures
            r@ == self@,
    {
        match self {
            PathComponent::Prefix(bytes) => PathComponent::Prefix(copy_bytes(bytes)),
            PathComponent::RootDir => PathComponent::RootDir,
            PathComponent::CurDir => PathComponent::CurDir,
            PathComponent::ParentDir => PathComponent::ParentDir,
            PathComponent::Normal(bytes) => PathComponent::Normal(copy_bytes(bytes)),
        }
    }
}

impl MediaPath {
    /// Whether two paths are equal.
    pub fn same(&self, other: &MediaPath) -> (r: bool)
        ensures
            r == same_path(self@, other@),
    {
        let len: usize = self.components.len();
        if len != other.components.len() {
            assert(self@.components.len() != other@.components.len());
            return false;
        }
        let mut i: usize = 0;
        while i < len
            invariant
                i <= len == self.components@.len() == other.components@.len(),
                forall|j: int| 0 <= j < i ==> self.components@[j]@ == other.components@[j]@,
            decreases len - i,
        {
            if !self.components[i].same(&other.components[i]) {
                assert(self@.components[i as int] != other@.components[i as int]);
                return false;
            }
            i += 1;
        }
        assert(self@.components =~= other@.components);
        true
    }

    /// The path of one component that has these bytes.
    pub fn from_component(bytes: Vec<u8>) -> (r: MediaPath)
        ensures
            r@ == (PathView { bytes: bytes@, components: seq![ComponentView::Normal(bytes@)] }),
    {
        let copy = copy_bytes(&bytes);
        let r = MediaPath { bytes: copy, components: vec![PathComponent::Normal(bytes)] };
        assert(r@.components =~= seq![ComponentView::Normal(bytes@)]);
        r
    }

    /// A copy of the path.
    pub fn duplicate(&self) -> (r: MediaPath)
        ensures
            r@ == self@,
    {
        let mut components: Vec<PathComponent> = Vec::new();
        let mut i: usize = 0;
        while i < self.components.len()
            invariant
                i <= self.components@.len(),
                components@.len() == i,
                forall|j: int| 0 <= j < i ==> components@[j]@ == self.components@[j]@,
            decreases self.components@.len() - i,
        {
            components.push(self.components[i].duplicate());
            i += 1;
        }
        let r = MediaPath { bytes: copy_bytes(&self.bytes), components };
        assert(r@.components =~= self@.components);
        r
    }
}

impl PartialEq for MediaPath {
    fn eq(&self, other: &MediaPath) -> (r: bool) {
        self.same(other)
    }
}

impl Eq for MediaPath {

}

impl vstd::std_specs::cmp::PartialEqSpecImpl for MediaPath {
    open spec fn obeys_eq_spec() -> bool {
        true
    }

    open spec fn eq_spec(&self, other: &MediaPath) -> bool {
        same_path(self@, other@)
    }
}

/// Equality of paths is one: a path equals itself, whatever equals it is equal to it, and
/// paths equal to the same path equal each other.
pub proof fn equality_is_an_equivalence(a: PathView, b: PathView, c: PathView)
    ensures
        same_path(a, a),
        same_path(a, b) == same_path(b, a),
        same_path(a, b) && same_path(b, c) ==> same_path(a, c),
{
}

/// Paths are equal exactly where they have as many components and each is that of the other
/// path: a name never equals another name, nor the root, nor the directory above.
pub proof fn equality_goes_by_components(a: PathView, b: PathView)
    ensures
        same_path(a, b) <==> a.components.len() == b.components.len() && forall|i: int|
            0 <= i < a.components.len() ==> #[trigger] a.components[i] == b.components[i],
{
    if a.components.len() == b.components.len() && forall|i: int|
        0 <= i < a.components.len() ==> #[trigger] a.components[i] == b.components[i] {
        assert(a.components =~= b.components);
    }
}

} // verus!
