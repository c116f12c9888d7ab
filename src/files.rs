use vstd::prelude::*;
use vstd::utf8::*;
use vstd::string::*;

use crate::profile_state::ProfileFile;
use crate::save_state::{Platform, SaveFile};

verus! {

/// A parsed save or profile together with its on-disk identity.
#[derive(Debug, Clone)]
pub enum LoadedFile {
    Save(SaveFile),
    Profile(ProfileFile),
}

/// The four kinds of file the editor handles.
#[derive(Debug, Clone, Copy, PartialEq, Eq, Structural)]
pub enum FileKind {
    PcSave,
    Ps4Save,
    PcProfile,
    Ps4Profile,
}

impl FileKind {
    /// Position of the kind in the display order of files that share a name.
    pub open spec fn rank(self) -> int {
        match self {
            FileKind::PcSave => 0,
            FileKind::Ps4Save => 1,
            FileKind::PcProfile => 2,
            FileKind::Ps4Profile => 3,
        }
    }

    pub fn rank_of(&self) -> (r: u8)
        ensures
            r as int == self.rank(),
    {
        match self {
            FileKind::PcSave => 0,
            FileKind::Ps4Save => 1,
            FileKind::PcProfile => 2,
            FileKind::Ps4Profile => 3,
        }
    }
}

impl LoadedFile {
    pub open spec fn kind(&self) -> FileKind {
        match self {
            LoadedFile::Save(f) => match f.platform {
                Platform::Pc => FileKind::PcSave,
                Platform::Ps4 => FileKind::Ps4Save,
            },
            LoadedFile::Profile(f) => match f.platform {
                Platform::Pc => FileKind::PcProfile,
                Platform::Ps4 => FileKind::Ps4Profile,
            },
        }
    }

    pub open spec fn name(&self) -> Seq<char> {
        match self {
            LoadedFile::Save(f) => f.file_name@,
            LoadedFile::Profile(f) => f.file_name@,
        }
    }

    /// The bytes that order file names: their UTF-8 encoding.
    pub open spec fn name_key(&self) -> Seq<u8> {
        encode_utf8(self.name())
    }

    /// Two loaded files are the same file when kind and file name agree.
    pub open spec fn same_file(&self, o: &LoadedFile) -> bool {
        self.kind() == o.kind() && self.name() == o.name()
    }

    pub fn file_kind(&self) -> (r: FileKind)
        ensures
            r == self.kind(),
    {
        match self {
            LoadedFile::Save(f) => match f.platform {
                Platform::Pc => FileKind::PcSave,
                Platform::Ps4 => FileKind::Ps4Save,
            },
            LoadedFile::Profile(f) => match f.platform {
                Platform::Pc => FileKind::PcProfile,
                Platform::Ps4 => FileKind::Ps4Profile,
            },
        }
    }

    pub fn file_name(&self) -> (r: &String)
        ensures
            r@ == self.name(),
    {
        match self {
            LoadedFile::Save(f) => &f.file_name,
            LoadedFile::Profile(f) => &f.file_name,
        }
    }

    /// The file's bytes as read from disk.
    pub open spec fn disk_bytes(&self) -> Seq<u8> {
        match self {
            LoadedFile::Save(f) => f.bytes@,
            LoadedFile::Profile(f) => f.bytes@,
        }
    }

    pub fn bytes(&self) -> (r: &Vec<u8>)
        ensures
            r@ == self.disk_bytes(),
    {
        match self {
            LoadedFile::Save(f) => &f.bytes,
            LoadedFile::Profile(f) => &f.bytes,
        }
    }

    /// Equal in every field, text and bytes compared by content.
    pub open spec fn same_as(&self, o: &LoadedFile) -> bool {
        match (self, o) {
            (LoadedFile::Save(a), LoadedFile::Save(b)) => a.same_as(b),
            (LoadedFile::Profile(a), LoadedFile::Profile(b)) => a.same_as(b),
            _ => false,
        }
    }

    pub fn copy(&self) -> (r: LoadedFile)
        ensures
            r.same_as(self),
            r.same_file(self),
    {
        match self {
            LoadedFile::Save(f) => LoadedFile::Save(f.copy()),
            LoadedFile::Profile(f) => LoadedFile::Profile(f.copy()),
        }
    }

    pub fn is_same_file(&self, o: &LoadedFile) -> (r: bool)
        ensures
            r == self.same_file(o),
    {
        self.file_kind() == o.file_kind() && *self.file_name() == *o.file_name()
    }
}

/// `a` comes strictly before `b` in lexicographic byte order: at the first position where
/// they differ `a` holds the smaller byte, or `a` is a proper prefix of `b`.
pub open spec fn bytes_lt(a: Seq<u8>, b: Seq<u8>) -> bool {
    exists|i: int| bytes_lt_at(a, b, i)
}

/// `i` is the first position where `a` and `b` differ, and there `a` is the smaller.
pub open spec fn bytes_lt_at(a: Seq<u8>, b: Seq<u8>, i: int) -> bool {
    &&& 0 <= i <= a.len()
    &&& i < b.len()
    &&& forall|j: int| 0 <= j < i ==> a[j] == b[j]
    &&& (i == a.len() || a[i] < b[i])
}

/// Display order of the registry: by file name, then by kind.
pub open spec fn file_lt(a: LoadedFile, b: LoadedFile) -> bool {
    bytes_lt(a.name_key(), b.name_key()) || (a.name_key() == b.name_key() && a.kind().rank()
        < b.kind().rank())
}

pub proof fn lemma_bytes_lt_transitive(a: Seq<u8>, b: Seq<u8>, c: Seq<u8>)
    requires
        bytes_lt(a, b),
        bytes_lt(b, c),
    ensures
        bytes_lt(a, c),
{
    let i = choose|i: int| bytes_lt_at(a, b, i);
    let j = choose|j: int| bytes_lt_at(b, c, j);
    let m = if i < j { i } else { j };
    assert(bytes_lt_at(a, c, m));
}

pub proof fn lemma_file_lt_transitive(a: LoadedFile, b: LoadedFile, c: LoadedFile)
    requires
        file_lt(a, b),
        file_lt(b, c),
    ensures
        file_lt(a, c),
{
    if bytes_lt(a.name_key(), b.name_key()) && bytes_lt(b.name_key(), c.name_key()) {
        lemma_bytes_lt_transitive(a.name_key(), b.name_key(), c.name_key());
    }
}

/// Identical identities order identically.
pub proof fn lemma_file_lt_respects_same_file(a: LoadedFile, b: LoadedFile, c: LoadedFile)
    requires
        a.same_file(&b),
    ensures
        file_lt(a, c) == file_lt(b, c),
        file_lt(c, a) == file_lt(c, b),
{
}

/// Three-way comparison of two byte strings in lexicographic order.
fn compare_bytes(a: &[u8], b: &[u8]) -> (r: i8)
    ensures
        r == -1 ==> bytes_lt(a@, b@),
        r == 0 ==> a@ == b@,
        r == 1 ==> bytes_lt(b@, a@),
        r == -1 || r == 0 || r == 1,
{
    let mut i: usize = 0;
    while i < a.len() && i < b.len() && a[i] == b[i]
        invariant
            i <= a@.len(),
            i <= b@.len(),
            forall|j: int| 0 <= j < i ==> a@[j] == b@[j],
        decreases a@.len() - i,
    {
        i = i + 1;
    }
    if i == a.len() && i == b.len() {
        assert(a@ =~= b@);
        0
    } else if i == a.len() || (i < b.len() && a[i] < b[i]) {
        assert(bytes_lt_at(a@, b@, i as int));
        -1
    } else {
        assert(bytes_lt_at(b@, a@, i as int));
        1
    }
}

/// Three-way comparison in display order; `0` means the same file.
pub fn compare_files(a: &LoadedFile, b: &LoadedFile) -> (r: i8)
    ensures
        r == -1 ==> file_lt(*a, *b),
        r == 0 ==> a.same_file(b),
        r == 1 ==> file_lt(*b, *a),
        r == -1 || r == 0 || r == 1,
{
    let ka = a.file_name().as_str().as_bytes();
    let kb = b.file_name().as_str().as_bytes();
    let c = compare_bytes(ka, kb);
    if c != 0 {
        c
    } else {
        proof {
            encode_utf8_decode_utf8(a.name());
            encode_utf8_decode_utf8(b.name());
        }
        let ra = a.file_kind().rank_of();
        let rb = b.file_kind().rank_of();
        if ra < rb {
            -1
        } else if ra > rb {
            1
        } else {
            0
        }
    }
}

/// Strictly increasing in display order, so in particular free of duplicates.
pub open spec fn strictly_sorted(s: Seq<LoadedFile>) -> bool {
    forall|i: int, j: int| 0 <= i < j < s.len() ==> file_lt(#[trigger] s[i], #[trigger] s[j])
}

/// Some entry of `shown` is the same file as `f`.
pub open spec fn has_same_file(shown: Seq<LoadedFile>, f: LoadedFile) -> bool {
    exists|j: int| 0 <= j < shown.len() && f.same_file(&#[trigger] shown[j])
}

/// `shown` is the display order of the scanned `files`: strictly sorted, every scanned
/// file present under its identity, and nothing that was not scanned.
pub open spec fn displays(files: Seq<LoadedFile>, shown: Seq<LoadedFile>) -> bool {
    &&& strictly_sorted(shown)
    &&& forall|i: int| 0 <= i < files.len() ==> has_same_file(shown, #[trigger] files[i])
    &&& forall|j: int| 0 <= j < shown.len() ==> files.contains(#[trigger] shown[j])
}

/// Orders the files of a directory scan by file name (then kind) and drops duplicates,
/// whatever order the scan produced them in.
pub fn sort_files(files: Vec<LoadedFile>) -> (r: Vec<LoadedFile>)
    ensures
        displays(files@, r@),
{
    let ghost orig = files@;
    let mut rest = files;
    let mut shown: Vec<LoadedFile> = Vec::new();
    while rest.len() > 0
        invariant
            rest@ == orig.subrange(0, rest@.len() as int),
            rest@.len() <= orig.len(),
            strictly_sorted(shown@),
            forall|i: int| rest@.len() <= i < orig.len() ==> has_same_file(shown@, #[trigger] orig[i]),
            forall|j: int| 0 <= j < shown@.len() ==> orig.contains(#[trigger] shown@[j]),
        decreases rest@.len(),
    {
        let ghost n = rest@.len() - 1;
        let f = rest.pop().unwrap();
        assert(f == orig[n]);
        assert(rest@ =~= orig.subrange(0, rest@.len() as int));
        let mut pos: usize = 0;
        let mut c: i8 = -1;
        while pos < shown.len() && c == -1
            invariant
                pos <= shown@.len(),
                forall|k: int| 0 <= k < pos ==> file_lt(#[trigger] shown@[k], f),
                c == -1 || c == 0 || c == 1,
                c == 0 ==> pos < shown@.len() && shown@[pos as int].same_file(&f),
                c == 1 ==> pos < shown@.len() && file_lt(f, shown@[pos as int]),
            decreases shown@.len() - pos, if c == -1 {
                1int
            } else {
                0int
            },
        {
            let d = compare_files(&shown[pos], &f);
            if d == -1 {
                pos = pos + 1;
            } else {
                c = d;
            }
        }
        if c == 0 {
            assert(shown@[pos as int].same_file(&f));
            assert(orig[n].same_file(&shown@[pos as int]));
        } else {
            let ghost before = shown@;
            proof {
                if pos < before.len() {
                    assert(file_lt(f, before[pos as int]));
                }
            }
            shown.insert(pos, f);
            assert(shown@ =~= before.insert(pos as int, f));
            proof {
                assert forall|i: int, j: int| 0 <= i < j < shown@.len() implies file_lt(
                    #[trigger] shown@[i],
                    #[trigger] shown@[j],
                ) by {
                    if i < pos && j == pos {
                    } else if i == pos && j > pos {
                        if j > pos + 1 {
                            lemma_file_lt_transitive(f, before[pos as int], before[j - 1]);
                        }
                    } else if i < pos && j > pos {
                    } else {
                    }
                };
                assert forall|i: int| rest@.len() <= i < orig.len() implies has_same_file(
                    shown@,
                    #[trigger] orig[i],
                ) by {
                    if i == n {
                        assert(orig[i].same_file(&shown@[pos as int]));
                    } else {
                        let j0 = choose|j: int|
                            0 <= j < before.len() && orig[i].same_file(&#[trigger] before[j]);
                        if j0 < pos {
                            assert(orig[i].same_file(&shown@[j0]));
                        } else {
                            assert(orig[i].same_file(&shown@[j0 + 1]));
                        }
                    }
                };
                assert forall|j: int| 0 <= j < shown@.len() implies orig.contains(#[trigger] shown@[j]) by {
                    if j == pos {
                        assert(orig[n] == shown@[j]);
                    } else if j < pos {
                        assert(shown@[j] == before[j]);
                    } else {
                        assert(shown@[j] == before[j - 1]);
                    }
                };
            }
        }
    }
    proof {
        assert forall|i: int| 0 <= i < orig.len() implies has_same_file(
            shown@,
            #[trigger] orig[i],
        ) by {
            assert(rest@.len() <= i);
        };
    }
    shown
}

/// Index of the first file that is the same file as `target`, or `None` when there is
/// none.
pub fn find_same_file(files: &Vec<LoadedFile>, target: &LoadedFile) -> (r: Option<usize>)
    ensures
        match r {
            Some(i) => {
                &&& i < files@.len()
                &&& files@[i as int].same_file(target)
                &&& forall|j: int| 0 <= j < i ==> !(#[trigger] files@[j]).same_file(target)
            },
            None => forall|j: int| 0 <= j < files@.len() ==> !(#[trigger] files@[j]).same_file(target),
        },
{
    let mut i: usize = 0;
    while i < files.len()
        invariant
            i <= files@.len(),
            forall|j: int| 0 <= j < i ==> !(#[trigger] files@[j]).same_file(target),
        decreases files@.len() - i,
    {
        if files[i].is_same_file(target) {
            return Some(i);
        }
        i = i + 1;
    }
    None
}

/// Two strictly sorted sequences that hold the same files hold them at the same positions.
pub proof fn lemma_sorted_same_files_align(s: Seq<LoadedFile>, t: Seq<LoadedFile>)
    requires
        strictly_sorted(s),
        strictly_sorted(t),
        forall|i: int| 0 <= i < s.len() ==> has_same_file(t, #[trigger] s[i]),
        forall|i: int| 0 <= i < t.len() ==> has_same_file(s, #[trigger] t[i]),
    ensures
        s.len() == t.len(),
        forall|i: int| 0 <= i < s.len() ==> (#[trigger] s[i]).same_file(&t[i]),
    decreases s.len(),
{
    if s.len() == 0 {
        if t.len() > 0 {
            assert(has_same_file(s, t[0]));
        }
    } else {
        assert(has_same_file(t, s[0]));
        let j = choose|j: int| 0 <= j < t.len() && s[0].same_file(&#[trigger] t[j]);
        assert(has_same_file(s, t[0]));
        let k = choose|k: int| 0 <= k < s.len() && t[0].same_file(&#[trigger] s[k]);
        if j != 0 && k != 0 {
            assert(file_lt(t[0], t[j]));
            lemma_file_lt_respects_same_file(t[j], s[0], t[0]);
            assert(file_lt(s[0], s[k]));
            lemma_file_lt_respects_same_file(s[k], t[0], s[0]);
            lemma_file_lt_transitive(s[0], t[0], s[0]);
        }
        assert(s[0].same_file(&t[0]));
        let s1 = s.drop_first();
        let t1 = t.drop_first();
        assert forall|i: int| 0 <= i < s1.len() implies has_same_file(t1, #[trigger] s1[i]) by {
            assert(s1[i] == s[i + 1]);
            assert(has_same_file(t, s[i + 1]));
            let m = choose|m: int| 0 <= m < t.len() && s[i + 1].same_file(&#[trigger] t[m]);
            if m == 0 {
                assert(file_lt(s[0], s[i + 1]));
                lemma_file_lt_respects_same_file(s[i + 1], t[0], s[0]);
                lemma_file_lt_respects_same_file(s[0], t[0], t[0]);
            }
            assert(s1[i].same_file(&t1[m - 1]));
        };
        assert forall|i: int| 0 <= i < t1.len() implies has_same_file(s1, #[trigger] t1[i]) by {
            assert(t1[i] == t[i + 1]);
            assert(has_same_file(s, t[i + 1]));
            let m = choose|m: int| 0 <= m < s.len() && t[i + 1].same_file(&#[trigger] s[m]);
            if m == 0 {
                assert(file_lt(t[0], t[i + 1]));
                lemma_file_lt_respects_same_file(t[i + 1], s[0], t[0]);
                lemma_file_lt_respects_same_file(t[0], s[0], s[0]);
            }
            assert(t1[i].same_file(&s1[m - 1]));
        };
        lemma_sorted_same_files_align(s1, t1);
        assert forall|i: int| 0 <= i < s.len() implies (#[trigger] s[i]).same_file(&t[i]) by {
            if i > 0 {
                assert(s1[i - 1] == s[i] && t1[i - 1] == t[i]);
            }
        };
    }
}

} // verus!
