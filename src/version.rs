use vstd::prelude::*;

verus! {

/// A semantic version: three numeric components plus the pre-release and
/// build-metadata labels, which bumps carry through unchanged.
#[derive(Clone, Debug)]
pub struct Version {
    pub major: u64,
    pub minor: u64,
    pub patch: u64,
    pub pre: String,
    pub build: String,
}

/// Mathematical model of a version: the three components and the two labels.
pub type VersionModel = (u64, u64, u64, Seq<char>, Seq<char>);

impl View for Version {
    type V = VersionModel;

    open spec fn view(&self) -> VersionModel {
        (self.major, self.minor, self.patch, self.pre@, self.build@)
    }
}

impl Version {
    /// A release version `major.minor.patch` without labels.
    pub fn new(major: u64, minor: u64, patch: u64) -> (r: Version)
        ensures
            r@ == (major, minor, patch, Seq::<char>::empty(), Seq::<char>::empty()),
    {
        Version { major, minor, patch, pre: String::new(), build: String::new() }
    }
}

/// The three increments of a semantic version, stated over its numeric
/// components `(major, minor, patch)`.
pub trait Bump {
    /// The numeric components `(major, minor, patch)`.
    spec fn numbers(&self) -> (int, int, int);

    /// Increments the patch component.
    fn bump_patch(&mut self)
        requires
            old(self).numbers().2 < u64::MAX,
        ensures
            final(self).numbers() == (
                old(self).numbers().0,
                old(self).numbers().1,
                old(self).numbers().2 + 1,
            ),
    ;

    /// Increments the minor component and resets the patch component to 0.
    fn bump_minor(&mut self)
        requires
            old(self).numbers().1 < u64::MAX,
        ensures
            final(self).numbers() == (old(self).numbers().0, old(self).numbers().1 + 1, 0int),
    ;

    /// Increments the major component and resets minor and patch to 0.
    fn bump_major(&mut self)
        requires
            old(self).numbers().0 < u64::MAX,
        ensures
            final(self).numbers() == (old(self).numbers().0 + 1, 0int, 0int),
    ;
}

impl Bump for Version {
    open spec fn numbers(&self) -> (int, int, int) {
        (self.major as int, self.minor as int, self.patch as int)
    }

    fn bump_patch(&mut self)
        ensures
            final(self).pre@ == old(self).pre@,
            final(self).build@ == old(self).build@,
    {
        self.patch = self.patch + 1;
    }

    fn bump_minor(&mut self)
        ensures
            final(self).pre@ == old(self).pre@,
            final(self).build@ == old(self).build@,
    {
        self.patch = 0;
        self.minor = self.minor + 1;
    }

    fn bump_major(&mut self)
        ensures
            final(self).pre@ == old(self).pre@,
            final(self).build@ == old(self).build@,
    {
        self.patch = 0;
        self.minor = 0;
        self.major = self.major + 1;
    }
}

} // verus!
