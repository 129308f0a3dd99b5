use vstd::prelude::*;

verus! {

/// The kinds of argument that a bundle can declare.
#[derive(Clone, Copy, Debug, PartialEq, Eq, Structural)]
pub enum ArgKind {
    Str,
    Wstr,
    Int,
    Short,
    Other,
}

/// The kind that a declared type name stands for. Every name but the four
/// known ones is `Other`.
pub open spec fn kind_of(declared: Seq<char>) -> ArgKind {
    if declared == "str"@ {
        ArgKind::Str
    } else if declared == "wstr"@ {
        ArgKind::Wstr
    } else if declared == "int"@ {
        ArgKind::Int
    } else if declared == "short"@ {
        ArgKind::Short
    } else {
        ArgKind::Other
    }
}

/// One declared argument, as a mathematical value.
pub struct ArgSpec {
    pub name: Seq<char>,
    pub kind: Seq<char>,
    pub desc: Seq<char>,
    pub optional: bool,
}

/// One artifact of a bundle, as a mathematical value.
pub struct Artifact {
    pub os: Seq<char>,
    pub arch: Seq<char>,
    pub path: Seq<char>,
}

/// A bundle, as a mathematical value.
pub struct Bundle {
    pub name: Seq<char>,
    pub repo_url: Seq<char>,
    pub desc: Seq<char>,
    pub files: Seq<Artifact>,
    pub arguments: Seq<ArgSpec>,
}

/// One declared argument of a bundle: its name, the name of its type, a
/// description, and whether it may be left out.
#[derive(Debug, PartialEq, Eq)]
pub struct ConfigArguments {
    pub name: String,
    pub kind: String,
    pub desc: String,
    pub optional: bool,
}

/// One native artifact of a bundle, for one operating system and architecture.
#[derive(Debug, PartialEq, Eq)]
pub struct OsFile {
    pub os: String,
    pub arch: String,
    pub path: String,
}

/// A payload bundle: a named package with its artifacts and the arguments it
/// declares, in the order in which they are bound and packed.
#[derive(Debug, PartialEq, Eq)]
pub struct ConfigFile {
    pub name: String,
    pub repo_url: String,
    pub desc: String,
    pub files: Vec<OsFile>,
    pub arguments: Vec<ConfigArguments>,
}

impl View for ConfigArguments {
    type V = ArgSpec;

    open spec fn view(&self) -> ArgSpec {
        ArgSpec { name: self.name@, kind: self.kind@, desc: self.desc@, optional: self.optional }
    }
}

impl View for OsFile {
    type V = Artifact;

    open spec fn view(&self) -> Artifact {
        Artifact { os: self.os@, arch: self.arch@, path: self.path@ }
    }
}

pub open spec fn schema_view(arguments: Seq<ConfigArguments>) -> Seq<ArgSpec> {
    Seq::new(arguments.len(), |i: int| arguments[i]@)
}

pub open spec fn files_view(files: Seq<OsFile>) -> Seq<Artifact> {
    Seq::new(files.len(), |i: int| files[i]@)
}

impl View for ConfigFile {
    type V = Bundle;

    open spec fn view(&self) -> Bundle {
        Bundle {
            name: self.name@,
            repo_url: self.repo_url@,
            desc: self.desc@,
            files: files_view(self.files@),
            arguments: schema_view(self.arguments@),
        }
    }
}

pub open spec fn catalog_view(bundles: Seq<ConfigFile>) -> Seq<Bundle> {
    Seq::new(bundles.len(), |i: int| bundles[i]@)
}

impl Clone for ConfigArguments {
    fn clone(&self) -> (copy: Self)
        ensures
            copy@ == self@,
    {
        ConfigArguments {
            name: self.name.clone(),
            kind: self.kind.clone(),
            desc: self.desc.clone(),
            optional: self.optional,
        }
    }
}

impl Clone for OsFile {
    fn clone(&self) -> (copy: Self)
        ensures
            copy@ == self@,
    {
        OsFile { os: self.os.clone(), arch: self.arch.clone(), path: self.path.clone() }
    }
}

impl Clone for ConfigFile {
    fn clone(&self) -> (copy: Self)
        ensures
            copy@ == self@,
    {
        let mut files: Vec<OsFile> = Vec::new();
        let mut i: usize = 0;
        while i < self.files.len()
            invariant
                i <= self.files.len(),
                files.len() == i,
                forall|j: int| 0 <= j < i ==> files[j]@ == self.files[j]@,
            decreases self.files.len() - i,
        {
            files.push(self.files[i].clone());
            i += 1;
        }
        assert(files_view(files@) =~= files_view(self.files@));
        let mut arguments: Vec<ConfigArguments> = Vec::new();
        let mut k: usize = 0;
        while k < self.arguments.len()
            invariant
                k <= self.arguments.len(),
                arguments.len() == k,
                forall|j: int| 0 <= j < k ==> arguments[j]@ == self.arguments[j]@,
            decreases self.arguments.len() - k,
        {
            arguments.push(self.arguments[k].clone());
            k += 1;
        }
        assert(schema_view(arguments@) =~= schema_view(self.arguments@));
        ConfigFile {
            name: self.name.clone(),
            repo_url: self.repo_url.clone(),
            desc: self.desc.clone(),
            files,
            arguments,
        }
    }
}

impl ConfigArguments {
    /// The kind that this argument's type name stands for.
    pub fn arg_kind(&self) -> (kind: ArgKind)
        ensures
            kind == kind_of(self.kind@),
    {
        if crate::text::same_text(self.kind.as_str(), "str") {
            ArgKind::Str
        } else if crate::text::same_text(self.kind.as_str(), "wstr") {
            ArgKind::Wstr
        } else if crate::text::same_text(self.kind.as_str(), "int") {
            ArgKind::Int
        } else if crate::text::same_text(self.kind.as_str(), "short") {
            ArgKind::Short
        } else {
            ArgKind::Other
        }
    }
}

} // verus!
