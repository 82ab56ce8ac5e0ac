//! Notes and their generated file names.
use vstd::prelude::*;
use rand::distributions::DistString;
use crate::path::{join, join_path, lemma_last_sep_is, parent, parent_dir};

verus! {

pub type Tag = String;

/// Length of the random part of a note's name.
pub const RANDOM_LEN: usize = 7;

/// Folder under the system's temporary directory where notes are edited.
pub open spec fn tmp_root() -> Seq<char> {
    "/tmp/robo-notes"@
}

/// A letter of the Latin alphabet, either case, or an ASCII digit.
pub open spec fn is_alphanumeric(c: char) -> bool {
    ('A' <= c && c <= 'Z') || ('a' <= c && c <= 'z') || ('0' <= c && c <= '9')
}

/// Relies on rand's `Alphanumeric::sample_string` over `thread_rng`: it
/// returns exactly `len` characters, each drawn from `A-Z`, `a-z` and `0-9`.
#[verifier::external_body]
fn random_alphanumeric(len: usize) -> (r: String)
    ensures
        r@.len() == len,
        forall|i: int| 0 <= i < r@.len() ==> is_alphanumeric(#[trigger] r@[i]),
{
    rand::distributions::Alphanumeric.sample_string(&mut rand::thread_rng(), len)
}

/// What a note's name is made of.
pub ghost struct NoteNameModel {
    pub base: Seq<char>,
    pub random: Seq<char>,
    pub extension: Seq<char>,
}

impl NoteNameModel {
    /// The file name: `base_random.extension`.
    pub open spec fn render(self) -> Seq<char> {
        self.base + seq!['_'] + self.random + seq!['.'] + self.extension
    }

    /// A generated name: a random part of seven letters and digits, and the
    /// extension `md`.
    pub open spec fn wf(self) -> bool {
        &&& self.random.len() == RANDOM_LEN
        &&& forall|i: int| 0 <= i < self.random.len() ==> is_alphanumeric(#[trigger] self.random[i])
        &&& self.extension == seq!['m', 'd']
    }
}

/// The unique file name of a note: a base chosen by the user, a random part
/// and an extension.
#[derive(Debug)]
pub struct NoteName {
    base: String,
    random: String,
    extension: String,
}

impl View for NoteName {
    type V = NoteNameModel;

    closed spec fn view(&self) -> NoteNameModel {
        NoteNameModel { base: self.base@, random: self.random@, extension: self.extension@ }
    }
}

impl NoteName {
    /// A name for `name` with a freshly drawn random part and extension `md`.
    pub fn new(name: String) -> (r: Self)
        ensures
            r@.base == name@,
            r@.wf(),
    {
        let random = random_alphanumeric(RANDOM_LEN);
        let extension = String::from_str("md");
        proof {
            reveal_strlit("md");
            assert(extension@ =~= seq!['m', 'd']);
        }
        NoteName { base: name, random, extension }
    }

    /// The name as a file name, `base_random.extension`.
    pub fn to_string(&self) -> (r: String)
        ensures
            r@ == self@.render(),
    {
        proof {
            reveal_strlit("_");
            reveal_strlit(".");
        }
        let mut r = self.base.clone();
        r.append("_");
        r.append(self.random.as_str());
        r.append(".");
        r.append(self.extension.as_str());
        r
    }

    /// The base that the user chose.
    pub fn base(&self) -> (r: &String)
        ensures
            r@ == self@.base,
    {
        &self.base
    }

    /// The random part.
    pub fn random(&self) -> (r: &String)
        ensures
            r@ == self@.random,
    {
        &self.random
    }

    /// The extension.
    pub fn extension(&self) -> (r: &String)
        ensures
            r@ == self@.extension,
    {
        &self.extension
    }
}

/// What a note is made of.
pub ghost struct NoteModel {
    pub name: NoteNameModel,
    pub content: Option<Seq<char>>,
    pub tags: Option<Seq<Seq<char>>>,
}

/// A note: its name, its text if it has one yet, and its tags.
#[derive(Debug)]
pub struct Note {
    name: NoteName,
    pub content: Option<String>,
    tags: Option<Vec<Tag>>,
}

pub open spec fn option_view(o: Option<String>) -> Option<Seq<char>> {
    match o {
        Some(s) => Some(s@),
        None => None,
    }
}

pub open spec fn tags_view(o: Option<Vec<Tag>>) -> Option<Seq<Seq<char>>> {
    match o {
        Some(v) => Some(v@.map_values(|t: Tag| t@)),
        None => None,
    }
}

impl View for Note {
    type V = NoteModel;

    closed spec fn view(&self) -> NoteModel {
        NoteModel { name: self.name@, content: option_view(self.content), tags: tags_view(self.tags) }
    }
}

/// A file and the directory that must exist before it is written.
pub struct FileTarget {
    pub dir: String,
    pub path: String,
}

/// A file to write with its text.
pub struct NoteWrite {
    pub target: FileTarget,
    pub content: String,
}

/// Why a note cannot be written.
#[derive(Debug, PartialEq, Eq, Structural)]
pub enum NoteError {
    /// The note has no text.
    NoContent,
}

/// Where the note goes under `root`, and the directory to create first.
pub open spec fn placed_under(t: FileTarget, note: NoteModel, root: Seq<char>) -> bool {
    &&& t.path@ == join_path(root, note.name.render())
    &&& t.dir@ == parent_dir(t.path@)
}

/// The outcome of saving `note` under `root`: without text it fails and
/// nothing is written; with text that text goes to the note's place.
pub open spec fn saved_as(r: Result<NoteWrite, NoteError>, note: NoteModel, root: Seq<char>) -> bool {
    match r {
        Ok(w) => note.content == Some(w.content@) && placed_under(w.target, note, root),
        Err(e) => note.content is None && e == NoteError::NoContent,
    }
}

fn copy_tags(tags: &Option<Vec<Tag>>) -> (r: Option<Vec<Tag>>)
    ensures
        tags_view(r) == tags_view(*tags),
{
    match tags {
        None => None,
        Some(v) => {
            let mut out: Vec<Tag> = Vec::new();
            let mut i: usize = 0;
            while i < v.len()
                invariant
                    i <= v.len(),
                    out@.len() == i,
                    forall|j: int| 0 <= j < i ==> (#[trigger] out@[j])@ == v@[j]@,
                decreases v.len() - i,
            {
                out.push(v[i].clone());
                i = i + 1;
            }
            assert(out@.map_values(|t: Tag| t@) =~= v@.map_values(|t: Tag| t@));
            Some(out)
        }
    }
}

impl Note {
    /// A note with a freshly generated name for `name`, and copies of
    /// `content` and `tags`.
    pub fn new(name: &String, content: &Option<String>, tags: &Option<Vec<Tag>>) -> (r: Self)
        ensures
            r@.name.base == name@,
            r@.name.wf(),
            r@.content == option_view(*content),
            r@.tags == tags_view(*tags),
    {
        let name = NoteName::new(name.clone());
        let content = match content {
            Some(c) => Some(c.clone()),
            None => None,
        };
        Note { name, content, tags: copy_tags(tags) }
    }

    /// The note's name.
    pub fn name(&self) -> (r: &NoteName)
        ensures
            r@ == self@.name,
    {
        &self.name
    }

    /// The note's tags.
    pub fn tags(&self) -> (r: &Option<Vec<Tag>>)
        ensures
            tags_view(*r) == self@.tags,
    {
        &self.tags
    }

    /// Where the note is edited before it is saved: under the temporary
    /// folder of this tool.
    pub fn get_tmp_path(&self) -> (r: FileTarget)
        ensures
            placed_under(r, self@, tmp_root()),
    {
        let root = String::from_str("/tmp/robo-notes");
        self.place_under(&root)
    }

    fn place_under(&self, root: &String) -> (r: FileTarget)
        ensures
            placed_under(r, self@, root@),
    {
        let path = join(root, &self.name.to_string());
        let dir = parent(&path);
        FileTarget { dir, path }
    }

    /// What saving the note under `root` writes, or why nothing is written.
    pub fn save(&self, root: &String) -> (r: Result<NoteWrite, NoteError>)
        ensures
            saved_as(r, self@, root@),
    {
        match &self.content {
            None => Err(NoteError::NoContent),
            Some(c) => Ok(NoteWrite { target: self.place_under(root), content: c.clone() }),
        }
    }
}

/// A generated name renders as the base, an underscore, seven letters or
/// digits and `.md`; so it never renders as the base with `.md` alone.
pub proof fn lemma_render_has_random_part(name: NoteNameModel)
    requires
        name.wf(),
    ensures
        name.render().len() == name.base.len() + 11,
        name.render() != name.base + seq!['.', 'm', 'd'],
        forall|i: int| 0 <= i < RANDOM_LEN ==> is_alphanumeric(#[trigger] name.render()[name.base.len() + 1 + i]),
{
    assert forall|i: int| 0 <= i < RANDOM_LEN implies is_alphanumeric(#[trigger] name.render()[name.base.len() + 1 + i]) by {
        assert(name.render()[name.base.len() + 1 + i] == name.random[i]);
    }
    assert(name.render().len() != (name.base + seq!['.', 'm', 'd']).len());
}

/// A note whose base holds a separator is written into a subdirectory of
/// the root: for a base `dir/file`, the directory to create is `root/dir`.
pub proof fn lemma_nested_note_dir(root: Seq<char>, name: NoteNameModel, dir: Seq<char>, file: Seq<char>)
    requires
        name.wf(),
        name.base == dir + seq!['/'] + file,
        forall|j: int| 0 <= j < file.len() ==> file[j] != '/',
        dir.len() > 0,
        dir[0] != '/',
        root.len() > 0,
        root.last() != '/',
    ensures
        parent_dir(join_path(root, name.render())) == root + seq!['/'] + dir,
{
    let n = name.render();
    let p = join_path(root, n);
    assert(n[0] == dir[0]);
    assert(p == root + seq!['/'] + n);
    let i = root.len() + 1 + dir.len() as int;
    assert(p[i] == '/');
    assert forall|j: int| i < j < p.len() implies p[j] != '/' by {
        let k = j - i - 1;
        if k < file.len() {
            assert(p[j] == file[k]);
        } else if k > file.len() + 1 && k < file.len() + 1 + RANDOM_LEN {
            assert(p[j] == name.random[k - file.len() - 1]);
        }
    }
    lemma_last_sep_is(p, i);
    assert(p.subrange(0, i) =~= root + seq!['/'] + dir);
}

} // verus!
