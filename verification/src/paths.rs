//! Paths as their components, and the rules on where a file may lie.
use crate::native::Platform;
use crate::text::{
    ascii_lower, ascii_only, chars_of, lowercase, replace_char, replaced, same_text,
    starts_with_chars, text_of, to_lowercase,
};
use vstd::prelude::*;
use vstd::string::*;

verus! {

/// One component of a path. A prefix (`C:`, `\\server\share`) carries the text
/// by which the platform tells it from others.
#[derive(Debug)]
pub enum PathPart {
    Prefix(String),
    RootDir,
    CurDir,
    ParentDir,
    Normal(String),
}

/// A component as a mathematical value.
pub enum PathPartView {
    Prefix(Seq<char>),
    RootDir,
    CurDir,
    ParentDir,
    Normal(Seq<char>),
}

impl View for PathPart {
    type V = PathPartView;

    open spec fn view(&self) -> PathPartView {
        match self {
            PathPart::Prefix(text) => PathPartView::Prefix(text@),
            PathPart::RootDir => PathPartView::RootDir,
            PathPart::CurDir => PathPartView::CurDir,
            PathPart::ParentDir => PathPartView::ParentDir,
            PathPart::Normal(name) => PathPartView::Normal(name@),
        }
    }
}

impl PathPart {
    /// Whether two components are the same.
    pub fn same(&self, other: &PathPart) -> (same: bool)
        ensures
            same == (self@ == other@),
    {
        match (self, other) {
            (PathPart::Prefix(a), PathPart::Prefix(b)) => same_text(a.as_str(), b.as_str()),
            (PathPart::RootDir, PathPart::RootDir) => true,
            (PathPart::CurDir, PathPart::CurDir) => true,
            (PathPart::ParentDir, PathPart::ParentDir) => true,
            (PathPart::Normal(a), PathPart::Normal(b)) => same_text(a.as_str(), b.as_str()),
            _ => false,
        }
    }
}

impl Clone for PathPart {
    fn clone(&self) -> (copy: PathPart)
        ensures
            copy@ == self@,
    {
        match self {
            PathPart::Prefix(text) => PathPart::Prefix(text.clone()),
            PathPart::RootDir => PathPart::RootDir,
            PathPart::CurDir => PathPart::CurDir,
            PathPart::ParentDir => PathPart::ParentDir,
            PathPart::Normal(name) => PathPart::Normal(name.clone()),
        }
    }
}

/// A path: its components, by which paths are compared.
#[derive(Debug)]
pub struct ServicePath {
    pub parts: Vec<PathPart>,
}

impl View for ServicePath {
    type V = Seq<PathPartView>;

    open spec fn view(&self) -> Seq<PathPartView> {
        self.parts@.map_values(|part: PathPart| part@)
    }
}

/// Whether a path can lose its last component.
pub open spec fn has_parent(path: Seq<PathPartView>) -> bool {
    path.len() > 0 && !(path.last() is RootDir) && !(path.last() is Prefix)
}

/// The path without its last component: none for a root, a prefix and the
/// empty path.
pub open spec fn parent_of(path: Seq<PathPartView>) -> Option<Seq<PathPartView>> {
    if has_parent(path) {
        Some(path.drop_last())
    } else {
        None
    }
}

/// The name that a path ends in, if it does end in a name.
pub open spec fn file_name_of(path: Seq<PathPartView>) -> Option<Seq<char>> {
    if path.len() > 0 && path.last() is Normal {
        Some(path.last()->Normal_0)
    } else {
        None
    }
}

impl Clone for ServicePath {
    fn clone(&self) -> (copy: ServicePath)
        ensures
            copy@ == self@,
    {
        self.prefix(self.parts.len())
    }
}

impl ServicePath {
    /// The path made of the first `count` components.
    pub fn prefix(&self, count: usize) -> (path: ServicePath)
        requires
            count <= self@.len(),
        ensures
            path@ == self@.take(count as int),
    {
        let mut parts: Vec<PathPart> = Vec::new();
        for i in 0..count
            invariant
                count <= self.parts@.len(),
                parts@.len() == i,
                forall|j: int| 0 <= j < i ==> (#[trigger] parts@[j])@ == self.parts@[j]@,
        {
            parts.push(self.parts[i].clone());
        }
        let path = ServicePath { parts };
        assert(path@ =~= self@.take(count as int));
        path
    }

    /// `Path::starts_with`: whether the components begin with those of `base`.
    pub fn starts_with(&self, base: &ServicePath) -> (starts: bool)
        ensures
            starts == base@.is_prefix_of(self@),
    {
        if self.parts.len() < base.parts.len() {
            return false;
        }
        for i in 0..base.parts.len()
            invariant
                base.parts@.len() <= self.parts@.len(),
                forall|j: int| 0 <= j < i ==> base@[j] == self@[j],
        {
            if !self.parts[i].same(&base.parts[i]) {
                assert(base@[i as int] != self@.subrange(0, base@.len() as int)[i as int]);
                return false;
            }
        }
        assert(base@ =~= self@.subrange(0, base@.len() as int));
        true
    }

    /// Whether two paths have the same components.
    pub fn same(&self, other: &ServicePath) -> (same: bool)
        ensures
            same == (self@ == other@),
    {
        let same: bool = self.parts.len() == other.parts.len() && self.starts_with(other);
        assert(self@.len() == other@.len() ==> self@.subrange(0, other@.len() as int) =~= self@);
        same
    }

    /// `Path::parent`.
    pub fn parent(&self) -> (parent: Option<ServicePath>)
        ensures
            parent is Some <==> parent_of(self@) is Some,
            parent matches Some(path) ==> Some(path@) == parent_of(self@),
    {
        let count: usize = self.parts.len();
        if count == 0 {
            return None;
        }
        assert(self@.last() == self.parts@.last()@);
        match &self.parts[count - 1] {
            PathPart::Prefix(_) => None,
            PathPart::RootDir => None,
            _ => {
                assert(self@.drop_last() =~= self@.take(count - 1));
                Some(self.prefix(count - 1))
            },
        }
    }

    /// `Path::file_name`, for a name that is text.
    pub fn file_name(&self) -> (name: Option<&String>)
        ensures
            name is Some <==> file_name_of(self@) is Some,
            name matches Some(text) ==> Some(text@) == file_name_of(self@),
    {
        let count: usize = self.parts.len();
        if count == 0 {
            return None;
        }
        assert(self@.last() == self.parts@.last()@);
        match &self.parts[count - 1] {
            PathPart::Normal(name) => Some(name),
            _ => None,
        }
    }
}

/// Whether a file name has the extension `app`: the part behind its last dot,
/// where something stands before that dot.
pub open spec fn has_app_extension(name: Seq<char>) -> bool {
    &&& name.len() > 4
    &&& name.subrange(name.len() - 4, name.len() as int) == ".app"@
}

fn is_app_name(name: &String) -> (is_app: bool)
    ensures
        is_app == has_app_extension(name@),
{
    let chars: Vec<char> = chars_of(name.as_str());
    let length: usize = chars.len();
    if length <= 4 {
        return false;
    }
    let ending: String = text_of(&chars, length - 4, length);
    same_text(ending.as_str(), ".app")
}

/// The length of the longest ancestor, at most `count` components long, whose
/// name has the extension `app`: zero where there is none.
pub open spec fn app_ancestor_len(path: Seq<PathPartView>, count: nat) -> nat
    decreases count,
{
    if count == 0 {
        0
    } else if path[count - 1] is Normal && has_app_extension(path[count - 1]->Normal_0) {
        count
    } else if path[count - 1] is RootDir || path[count - 1] is Prefix {
        0
    } else {
        app_ancestor_len(path, (count - 1) as nat)
    }
}

/// The directory that holds what the application ships with its core: on macOS
/// the innermost application bundle (`*.app`) around the core, elsewhere the
/// directory of the core.
pub open spec fn bundle_root(platform: Platform, core_path: Seq<PathPartView>) -> Option<
    Seq<PathPartView>,
> {
    if platform == Platform::Macos {
        let count = app_ancestor_len(core_path, core_path.len());
        if count == 0 {
            None
        } else {
            Some(core_path.take(count as int))
        }
    } else {
        parent_of(core_path)
    }
}

/// The directory that holds what the application ships with its core.
pub fn application_bundle_root(platform: Platform, core_path: &ServicePath) -> (root: Option<
    ServicePath,
>)
    ensures
        root is Some <==> bundle_root(platform, core_path@) is Some,
        root matches Some(path) ==> Some(path@) == bundle_root(platform, core_path@),
{
    if platform != Platform::Macos {
        return core_path.parent();
    }
    let mut count: usize = core_path.parts.len();
    while count > 0
        invariant
            count <= core_path@.len(),
            app_ancestor_len(core_path@, core_path@.len()) == app_ancestor_len(
                core_path@,
                count as nat,
            ),
            platform == Platform::Macos,
        decreases count,
    {
        assert(core_path@[count - 1] == core_path.parts@[count - 1]@);
        match &core_path.parts[count - 1] {
            PathPart::Normal(name) => {
                if is_app_name(name) {
                    return Some(core_path.prefix(count));
                }
            },
            PathPart::RootDir => {
                return None;
            },
            PathPart::Prefix(_) => {
                return None;
            },
            _ => {},
        }
        count = count - 1;
    }
    None
}

/// The length of the longest ancestor, at most `count` components long, that is
/// named `Library`: zero where there is none.
pub open spec fn library_ancestor_len(path: Seq<PathPartView>, count: nat) -> nat
    decreases count,
{
    if count == 0 {
        0
    } else if path[count - 1] == PathPartView::Normal("Library"@) {
        count
    } else if path[count - 1] is RootDir || path[count - 1] is Prefix {
        0
    } else {
        library_ancestor_len(path, (count - 1) as nat)
    }
}

/// The `Applications` directory beside the innermost `Library` around the
/// application data.
pub open spec fn home_applications(app_data_root: Seq<PathPartView>) -> Option<Seq<PathPartView>> {
    let count = library_ancestor_len(app_data_root, app_data_root.len());
    if count == 0 {
        None
    } else {
        Some(app_data_root.take(count - 1).push(PathPartView::Normal("Applications"@)))
    }
}

/// Where macOS lets a core lie: below `/Applications`, or below the
/// `Applications` of the home that holds the application data.
pub open spec fn macos_core_allowed(
    app_data_root: Seq<PathPartView>,
    core_path: Seq<PathPartView>,
) -> bool {
    ||| seq![PathPartView::RootDir, PathPartView::Normal("Applications"@)].is_prefix_of(core_path)
    ||| (home_applications(app_data_root) matches Some(root) && root.is_prefix_of(core_path))
}

fn user_applications(app_data_root: &ServicePath) -> (root: Option<ServicePath>)
    ensures
        root is Some <==> home_applications(app_data_root@) is Some,
        root matches Some(path) ==> Some(path@) == home_applications(app_data_root@),
{
    let mut count: usize = app_data_root.parts.len();
    while count > 0
        invariant
            count <= app_data_root@.len(),
            library_ancestor_len(app_data_root@, app_data_root@.len()) == library_ancestor_len(
                app_data_root@,
                count as nat,
            ),
        decreases count,
    {
        assert(app_data_root@[count - 1] == app_data_root.parts@[count - 1]@);
        match &app_data_root.parts[count - 1] {
            PathPart::Normal(name) => {
                if same_text(name.as_str(), "Library") {
                    let mut root: ServicePath = app_data_root.prefix(count - 1);
                    let ghost home = root@;
                    root.parts.push(PathPart::Normal("Applications".to_owned()));
                    assert(root@ =~= home.push(PathPartView::Normal("Applications"@)));
                    return Some(root);
                }
            },
            PathPart::RootDir => {
                return None;
            },
            PathPart::Prefix(_) => {
                return None;
            },
            _ => {},
        }
        count = count - 1;
    }
    None
}

/// Whether macOS lets the core lie where it does.
pub fn macos_allows_core(app_data_root: &ServicePath, core_path: &ServicePath) -> (allowed: bool)
    ensures
        allowed == macos_core_allowed(app_data_root@, core_path@),
{
    let mut parts: Vec<PathPart> = Vec::new();
    parts.push(PathPart::RootDir);
    parts.push(PathPart::Normal("Applications".to_owned()));
    let shared = ServicePath { parts };
    assert(shared@ =~= seq![PathPartView::RootDir, PathPartView::Normal("Applications"@)]);
    if core_path.starts_with(&shared) {
        return true;
    }
    match user_applications(app_data_root) {
        Some(root) => core_path.starts_with(&root),
        None => false,
    }
}

/// Whether a character separates the components of a path.
pub open spec fn is_separator(platform: Platform, c: char) -> bool {
    c == '/' || (platform == Platform::Windows && c == '\\')
}

fn separates(platform: Platform, c: char) -> (yes: bool)
    ensures
        yes == is_separator(platform, c),
{
    c == '/' || (platform == Platform::Windows && c == '\\')
}

/// Whether `from..to` is one of the pieces that separators cut a path into.
pub open spec fn is_piece(platform: Platform, path: Seq<char>, from: int, to: int) -> bool {
    &&& 0 <= from < to <= path.len()
    &&& from == 0 || is_separator(platform, path[from - 1])
    &&& to == path.len() || is_separator(platform, path[to])
    &&& forall|i: int| from <= i < to ==> !is_separator(platform, #[trigger] path[i])
}

/// Whether a path begins with a drive, as `C:` does.
pub open spec fn has_drive(path: Seq<char>) -> bool {
    &&& path.len() >= 2
    &&& path[1] == ':'
    &&& ('a' <= path[0] && path[0] <= 'z') || ('A' <= path[0] && path[0] <= 'Z')
}

/// Whether a path names something below the directory it is taken from: it is
/// not empty, begins with no root and no drive, does not begin with `.`, and no
/// piece of it is `..`.
pub open spec fn is_below(platform: Platform, path: Seq<char>) -> bool {
    &&& path.len() > 0
    &&& !is_separator(platform, path[0])
    &&& !(platform == Platform::Windows && has_drive(path))
    &&& forall|from: int, to: int| #[trigger]
        is_piece(platform, path, from, to) ==> !is_bad_piece(path, from, to)
}

/// Whether a piece may not stand in a path that names something below: `..`,
/// and `.` at the beginning.
pub open spec fn is_bad_piece(path: Seq<char>, from: int, to: int) -> bool {
    ||| to - from == 2 && path[from] == '.' && path[from + 1] == '.'
    ||| from == 0 && to == 1 && path[0] == '.'
}

fn bad_piece(chars: &Vec<char>, from: usize, to: usize) -> (bad: bool)
    requires
        from <= to <= chars@.len(),
    ensures
        bad == is_bad_piece(chars@, from as int, to as int),
{
    (to - from == 2 && chars[from] == '.' && chars[from + 1] == '.') || (from == 0 && to == 1
        && chars[0] == '.')
}

/// Between `from` and the separator or end at `to` lies one piece and no other.
proof fn only_piece(platform: Platform, path: Seq<char>, from: int, to: int, f: int, t: int)
    requires
        0 <= from <= to <= path.len(),
        to == path.len() || is_separator(platform, path[to]),
        forall|k: int| from <= k < to ==> !is_separator(platform, #[trigger] path[k]),
        is_piece(platform, path, f, t),
        from <= f <= to,
    ensures
        f == from,
        t == to,
{
    if f > from {
        assert(is_separator(platform, path[f - 1]));
    }
    if t < to {
        assert(is_separator(platform, path[t]));
    }
    if t > to {
        assert(!is_separator(platform, path[to]));
    }
}

/// Whether a path names something below the directory it is taken from.
pub fn names_below(platform: Platform, path: &str) -> (below: bool)
    ensures
        below == is_below(platform, path@),
{
    let chars: Vec<char> = chars_of(path);
    let length: usize = chars.len();
    if length == 0 || separates(platform, chars[0]) {
        return false;
    }
    if platform == Platform::Windows && length >= 2 && chars[1] == ':' && (('a' <= chars[0]
        && chars[0] <= 'z') || ('A' <= chars[0] && chars[0] <= 'Z')) {
        return false;
    }
    let mut from: usize = 0;
    for i in 0..length
        invariant
            chars@ == path@,
            length == chars@.len(),
            from <= i,
            from == 0 || is_separator(platform, path@[from - 1]),
            forall|k: int| from <= k < i ==> !is_separator(platform, #[trigger] path@[k]),
            forall|f: int, t: int| #[trigger]
                is_piece(platform, path@, f, t) && f < from ==> !is_bad_piece(path@, f, t),
    {
        if separates(platform, chars[i]) {
            if bad_piece(&chars, from, i) {
                assert(is_piece(platform, path@, from as int, i as int));
                return false;
            }
            assert forall|f: int, t: int| #[trigger]
                is_piece(platform, path@, f, t) && f < i + 1 implies !is_bad_piece(path@, f, t) by {
                if f >= from {
                    only_piece(platform, path@, from as int, i as int, f, t);
                }
            }
            from = i + 1;
        }
    }
    if bad_piece(&chars, from, length) {
        assert(is_piece(platform, path@, from as int, length as int));
        return false;
    }
    assert forall|f: int, t: int| #[trigger] is_piece(platform, path@, f, t) implies !is_bad_piece(
        path@,
        f,
        t,
    ) by {
        if f >= from {
            only_piece(platform, path@, from as int, length as int, f, t);
        }
    }
    true
}

/// By what a runtime tells two destinations apart: on Windows neither the
/// direction of slashes nor case counts.
pub open spec fn key_of(platform: Platform, destination: Seq<char>) -> Seq<char> {
    if platform == Platform::Windows {
        lowercase(replaced(destination, '\\', '/'))
    } else {
        destination
    }
}

/// The identity on Windows of a destination that is spelled in ASCII.
pub open spec fn ascii_windows_key(destination: Seq<char>) -> Seq<char> {
    replaced(destination, '\\', '/').map_values(|c: char| ascii_lower(c))
}

/// The identity of a destination within a runtime.
pub fn destination_key(platform: Platform, destination: &str) -> (key: String)
    ensures
        key@ == key_of(platform, destination@),
        platform == Platform::Windows && ascii_only(destination@) ==> key@ == ascii_windows_key(
            destination@,
        ),
{
    if platform == Platform::Windows {
        let slashed: String = replace_char(destination, '\\', '/');
        to_lowercase(slashed.as_str())
    } else {
        destination.to_owned()
    }
}

/// The characters of a Windows path without its verbatim marker: `\\?\UNC\`
/// stands for `\\`, and `\\?\` for nothing.
pub open spec fn without_verbatim(path: Seq<char>) -> Seq<char> {
    if "\\\\?\\UNC\\"@.is_prefix_of(path) {
        seq!['\\', '\\'] + path.skip(8)
    } else if "\\\\?\\"@.is_prefix_of(path) {
        path.skip(4)
    } else {
        path
    }
}

/// A text without the backslashes that it ends in.
pub open spec fn without_trailing_backslashes(text: Seq<char>) -> Seq<char>
    decreases text.len(),
{
    if text.len() > 0 && text.last() == '\\' {
        without_trailing_backslashes(text.drop_last())
    } else {
        text
    }
}

/// The form in which two spellings of one Windows path are the same.
pub open spec fn windows_form(path: Seq<char>) -> Seq<char> {
    lowercase(windows_stem(path))
}

/// That form before case is folded.
pub open spec fn windows_stem(path: Seq<char>) -> Seq<char> {
    without_trailing_backslashes(without_verbatim(replaced(path, '/', '\\')))
}

fn windows_normalized(path: &str) -> (form: String)
    ensures
        form@ == windows_form(path@),
        ascii_only(windows_stem(path@)) ==> form@ == windows_stem(path@).map_values(
            |c: char| ascii_lower(c),
        ),
{
    let slashed: String = replace_char(path, '/', '\\');
    let chars: Vec<char> = chars_of(slashed.as_str());
    proof {
        reveal_strlit("\\\\?\\UNC\\");
        reveal_strlit("\\\\?\\");
        reveal_strlit("\\\\");
    }
    let kept: Vec<char>;
    if starts_with_chars(&chars, "\\\\?\\UNC\\") {
        let tail: String = text_of(&chars, 8, chars.len());
        let whole: String = "\\\\".to_owned().concat(tail.as_str());
        kept = chars_of(whole.as_str());
        assert(kept@ =~= without_verbatim(slashed@));
    } else if starts_with_chars(&chars, "\\\\?\\") {
        let tail: String = text_of(&chars, 4, chars.len());
        kept = chars_of(tail.as_str());
        assert(kept@ =~= without_verbatim(slashed@));
    } else {
        kept = chars;
    }
    let mut end: usize = kept.len();
    assert(kept@.take(end as int) =~= kept@);
    while end > 0 && kept[end - 1] == '\\'
        invariant
            end <= kept@.len(),
            without_trailing_backslashes(kept@) == without_trailing_backslashes(
                kept@.take(end as int),
            ),
        decreases end,
    {
        assert(kept@.take(end as int).drop_last() =~= kept@.take(end - 1));
        end = end - 1;
    }
    let trimmed: String = text_of(&kept, 0, end);
    assert(trimmed@ =~= kept@.take(end as int));
    to_lowercase(trimmed.as_str())
}

/// Whether two texts name one Windows path: the direction of slashes, case, the
/// verbatim marker and slashes at the end do not count.
pub fn windows_paths_equal(left: &str, right: &str) -> (equal: bool)
    ensures
        equal == (windows_form(left@) == windows_form(right@)),
        ascii_only(windows_stem(left@)) && ascii_only(windows_stem(right@)) ==> equal == (
        windows_stem(left@).map_values(|c: char| ascii_lower(c)) == windows_stem(right@).map_values(
            |c: char| ascii_lower(c),
        )),
{
    let a: String = windows_normalized(left);
    let b: String = windows_normalized(right);
    same_text(a.as_str(), b.as_str())
}

/// The marker of a verbatim Windows path does not count: with it or without it, a
/// path that bears no marker itself and is none of a share is the same path.
pub proof fn verbatim_marker_does_not_count(path: Seq<char>)
    requires
        !"\\\\?\\"@.is_prefix_of(replaced(path, '/', '\\')),
        !"UNC\\"@.is_prefix_of(replaced(path, '/', '\\')),
    ensures
        windows_form("\\\\?\\"@ + path) == windows_form(path),
{
    reveal_strlit("\\\\?\\");
    reveal_strlit("UNC\\");
    reveal_strlit("\\\\?\\UNC\\");
    let marker = "\\\\?\\"@;
    let share = "\\\\?\\UNC\\"@;
    let bare = replaced(path, '/', '\\');
    let marked = replaced(marker + path, '/', '\\');
    assert(marked =~= marker + bare);
    assert(marker + "UNC\\"@ =~= share);
    if share.is_prefix_of(marked) {
        assert forall|i: int| 0 <= i < 4 implies bare[i] == "UNC\\"@[i] by {
            assert(marked.subrange(0, 8)[i + 4] == share[i + 4]);
        }
        assert(bare.subrange(0, 4) =~= "UNC\\"@);
    }
    assert(marked.subrange(0, 4) =~= marker);
    assert(marked.skip(4) =~= bare);
    if share.is_prefix_of(bare) {
        assert(bare.subrange(0, 4) =~= bare.subrange(0, 8).subrange(0, 4));
        assert(bare.subrange(0, 4) =~= marker);
    }
}

/// Two ASCII spellings of one destination have one identity on Windows: only
/// the direction of slashes and the case of letters may differ.
pub proof fn spellings_share_a_windows_key(left: Seq<char>, right: Seq<char>)
    requires
        left.len() == right.len(),
        forall|i: int|
            0 <= i < left.len() ==> {
                ||| #[trigger] ascii_lower(left[i]) == ascii_lower(right[i])
                ||| left[i] == '/' && right[i] == '\\'
                ||| left[i] == '\\' && right[i] == '/'
            },
    ensures
        ascii_windows_key(left) == ascii_windows_key(right),
{
    assert forall|i: int| 0 <= i < left.len() implies ascii_windows_key(left)[i]
        == ascii_windows_key(right)[i] by {
        let _ = ascii_lower(left[i]);
    }
    assert(ascii_windows_key(left) =~= ascii_windows_key(right));
}

/// Off Windows two destinations are the same only where they are spelled alike.
pub proof fn keys_are_exact_off_windows(platform: Platform, left: Seq<char>, right: Seq<char>)
    requires
        platform != Platform::Windows,
    ensures
        key_of(platform, left) == key_of(platform, right) <==> left == right,
{
}

/// What is put behind a path is what it loses to its parent, unless that is a root or a
/// prefix; and it is the name that the path ends in, where it is a name.
pub proof fn parents_lose_the_last_component(path: Seq<PathPartView>, part: PathPartView)
    ensures
        part is RootDir || part is Prefix ==> parent_of(path.push(part)) is None,
        !(part is RootDir || part is Prefix) ==> parent_of(path.push(part)) == Some(path),
        part matches PathPartView::Normal(name) ==> file_name_of(path.push(part)) == Some(name),
        !(part is Normal) ==> file_name_of(path.push(part)) is None,
        parent_of(Seq::empty()) is None,
        file_name_of(Seq::empty()) is None,
{
    assert(path.push(part).drop_last() =~= path);
}

/// A name is that of an application exactly where `.app` stands behind something.
pub proof fn application_names_end_in_app(stem: Seq<char>, name: Seq<char>)
    ensures
        has_app_extension(stem + ".app"@) <==> stem.len() > 0,
        has_app_extension(name) ==> name == name.take(name.len() - 4) + ".app"@,
{
    reveal_strlit(".app");
    let whole = stem + ".app"@;
    if stem.len() > 0 {
        assert(whole.subrange(whole.len() - 4, whole.len() as int) =~= ".app"@);
    }
    if has_app_extension(name) {
        assert(name.take(name.len() - 4) + name.subrange(name.len() - 4, name.len() as int)
            =~= name);
    }
}

/// Whether a component is the name of an application.
pub open spec fn is_application(part: PathPartView) -> bool {
    part matches PathPartView::Normal(name) && name.len() > 4 && name == name.take(
        name.len() - 4,
    ) + ".app"@
}

proof fn lemma_app_ancestor(path: Seq<PathPartView>, count: nat)
    requires
        count <= path.len(),
    ensures
        ({
            let found = app_ancestor_len(path, count);
            &&& found <= count
            &&& found > 0 ==> is_application(path[found - 1]) && forall|k: int|
                found <= k < count ==> !is_application(#[trigger] path[k]) && !(path[k] is RootDir)
                    && !(path[k] is Prefix)
            &&& found == 0 ==> forall|j: int|
                0 <= j < count && is_application(#[trigger] path[j]) ==> exists|k: int|
                    j < k < count && (#[trigger] path[k] is RootDir || path[k] is Prefix)
        }),
    decreases count,
{
    if count > 0 {
        let last = path[count - 1];
        if let PathPartView::Normal(name) = last {
            application_names_end_in_app(name.take(name.len() - 4), name);
            if is_application(last) {
                assert(name.take(name.len() - 4).len() > 0);
            }
        }
        assert(is_application(last) <==> last is Normal && has_app_extension(last->Normal_0));
        lemma_app_ancestor(path, (count - 1) as nat);
    }
}

/// On macOS what ships with a core lies in the innermost application around it: the
/// bundle root leads to the core, its own name ends in `.app`, and no directory further
/// down does. There is none only where no directory around the core, up to the root, is
/// an application.
pub proof fn bundle_root_is_the_innermost_application(core_path: Seq<PathPartView>)
    ensures
        bundle_root(Platform::Macos, core_path) matches Some(root) ==> {
            &&& root.len() > 0
            &&& root.is_prefix_of(core_path)
            &&& is_application(root.last())
            &&& forall|k: int|
                root.len() <= k < core_path.len() ==> !is_application(#[trigger] core_path[k])
        },
        bundle_root(Platform::Macos, core_path) is None ==> forall|j: int|
            0 <= j < core_path.len() && is_application(#[trigger] core_path[j]) ==> exists|k: int|
                j < k < core_path.len() && (#[trigger] core_path[k] is RootDir || core_path[k]
                    is Prefix),
{
    lemma_app_ancestor(core_path, core_path.len());
}

/// Off macOS what ships with a core lies beside it.
pub proof fn bundle_root_is_the_directory_of_the_core(
    platform: Platform,
    directory: Seq<PathPartView>,
    name: Seq<char>,
)
    requires
        platform != Platform::Macos,
    ensures
        bundle_root(platform, directory.push(PathPartView::Normal(name))) == Some(directory),
{
    parents_lose_the_last_component(directory, PathPartView::Normal(name));
}

/// A path that climbs, begins at a root or at a drive, or begins with `.` names nothing
/// below.
pub proof fn climbing_paths_are_not_below(
    platform: Platform,
    before: Seq<char>,
    behind: Seq<char>,
    c: char,
)
    ensures
        (before.len() == 0 || before.last() == '/' || platform == Platform::Windows
            && before.last() == '\\') && (behind.len() == 0 || behind[0] == '/' || platform
            == Platform::Windows && behind[0] == '\\') ==> !is_below(
            platform,
            before + seq!['.', '.'] + behind,
        ),
        behind.len() == 0 || behind[0] == '/' || platform == Platform::Windows && behind[0] == '\\'
            ==> !is_below(platform, seq!['.'] + behind),
        !is_below(platform, seq!['/'] + behind),
        !is_below(Platform::Windows, seq!['\\'] + behind),
        'a' <= c <= 'z' || 'A' <= c <= 'Z' ==> !is_below(
            Platform::Windows,
            seq![c, ':'] + behind,
        ),
        !is_below(platform, Seq::empty()),
{
    let climbing = before + seq!['.', '.'] + behind;
    let from = before.len() as int;
    assert(climbing[from] == '.' && climbing[from + 1] == '.');
    if from > 0 {
        assert(climbing[from - 1] == before.last());
    }
    if behind.len() > 0 {
        assert(climbing[from + 2] == behind[0]);
    }
    if (from == 0 || is_separator(platform, before.last())) && (behind.len() == 0 || is_separator(
        platform,
        behind[0],
    )) {
        assert(is_piece(platform, climbing, from, from + 2));
        assert(is_bad_piece(climbing, from, from + 2));
    }
    let here = seq!['.'] + behind;
    assert(here[0] == '.');
    if behind.len() > 0 {
        assert(here[1] == behind[0]);
    }
    if behind.len() == 0 || is_separator(platform, behind[0]) {
        assert(is_piece(platform, here, 0, 1));
        assert(is_bad_piece(here, 0, 1));
    }
    assert((seq!['/'] + behind)[0] == '/');
    assert((seq!['\\'] + behind)[0] == '\\');
    let drive = seq![c, ':'] + behind;
    assert(drive[0] == c && drive[1] == ':');
}

/// Every other path names something below: one that is not refused for its first
/// character or its drive has, somewhere between separators or the ends, a piece that is
/// `..`, or begins with a piece that is `.`.
pub proof fn paths_not_below_climb(platform: Platform, path: Seq<char>)
    requires
        !is_below(platform, path),
        path.len() > 0,
        path[0] != '/',
        platform == Platform::Windows ==> path[0] != '\\' && !(path.len() >= 2 && path[1] == ':'
            && ('a' <= path[0] <= 'z' || 'A' <= path[0] <= 'Z')),
    ensures
        ({
            let ends = |i: int|
                i == -1 || i == path.len() || path[i] == '/' || (platform == Platform::Windows
                    && path[i] == '\\');
            ||| path[0] == '.' && ends(1)
            ||| exists|i: int|
                0 <= i < path.len() - 1 && #[trigger] path[i] == '.' && path[i + 1] == '.' && ends(
                    i - 1,
                ) && ends(i + 2)
        }),
{
    let (from, to) = choose|from: int, to: int| #[trigger]
        is_piece(platform, path, from, to) && is_bad_piece(path, from, to);
    let ends = |i: int|
        i == -1 || i == path.len() || path[i] == '/' || (platform == Platform::Windows && path[i]
            == '\\');
    if to - from == 2 {
        assert(path[from] == '.' && path[from + 1] == '.' && ends(from - 1) && ends(from + 2));
    }
}

/// Two ASCII destinations have one identity on Windows only where their characters
/// differ in nothing but case and the direction of slashes.
pub proof fn windows_keys_tell_destinations_apart(left: Seq<char>, right: Seq<char>, i: int)
    requires
        ascii_windows_key(left) == ascii_windows_key(right),
    ensures
        left.len() == right.len(),
        0 <= i < left.len() ==> {
            ||| ascii_lower(left[i]) == ascii_lower(right[i])
            ||| left[i] == '/' && right[i] == '\\'
            ||| left[i] == '\\' && right[i] == '/'
        },
{
    let a = ascii_windows_key(left);
    let b = ascii_windows_key(right);
    assert(a.len() == left.len() && b.len() == right.len());
    if 0 <= i < left.len() {
        assert(a[i] == b[i]);
    }
}

/// The direction of slashes does not count, neither for a Windows path nor for a
/// destination on Windows.
pub proof fn direction_of_slashes_does_not_count(path: Seq<char>)
    ensures
        windows_form(replaced(path, '\\', '/')) == windows_form(path),
        windows_form(replaced(path, '/', '\\')) == windows_form(path),
        key_of(Platform::Windows, replaced(path, '\\', '/')) == key_of(Platform::Windows, path),
        key_of(Platform::Windows, replaced(path, '/', '\\')) == key_of(Platform::Windows, path),
{
    let forward = replaced(path, '\\', '/');
    let backward = replaced(path, '/', '\\');
    assert(replaced(forward, '/', '\\') =~= backward);
    assert(replaced(backward, '/', '\\') =~= backward);
    assert(replaced(forward, '\\', '/') =~= forward);
    assert(replaced(backward, '\\', '/') =~= forward);
}

/// A slash more at the end of a Windows path does not count, unless it makes a verbatim
/// marker of what stands before it.
pub proof fn slashes_at_the_end_do_not_count(path: Seq<char>, slash: char)
    requires
        slash == '/' || slash == '\\',
        replaced(path, '/', '\\') != "\\\\?"@,
        replaced(path, '/', '\\') != "\\\\?\\UNC"@,
    ensures
        windows_form(path.push(slash)) == windows_form(path),
{
    reveal_strlit("\\\\?");
    reveal_strlit("\\\\?\\");
    reveal_strlit("\\\\?\\UNC");
    reveal_strlit("\\\\?\\UNC\\");
    let marker = "\\\\?\\"@;
    let share = "\\\\?\\UNC\\"@;
    let short = replaced(path, '/', '\\');
    let long = replaced(path.push(slash), '/', '\\');
    assert(long =~= short.push('\\'));
    if marker.is_prefix_of(long) && short.len() < 4 {
        assert(short =~= "\\\\?"@) by {
            assert forall|k: int| 0 <= k < 3 implies short[k] == marker[k] by {
                assert(long.subrange(0, 4)[k] == marker[k]);
            }
        }
    }
    if share.is_prefix_of(long) && short.len() < 8 {
        assert(short =~= "\\\\?\\UNC"@) by {
            assert forall|k: int| 0 <= k < 7 implies short[k] == share[k] by {
                assert(long.subrange(0, 8)[k] == share[k]);
            }
        }
    }
    if short.len() >= 4 {
        assert(long.subrange(0, 4) =~= short.subrange(0, 4));
        assert(long.skip(4) =~= short.skip(4).push('\\'));
    }
    if short.len() >= 8 {
        assert(long.subrange(0, 8) =~= short.subrange(0, 8));
        assert(long.skip(8) =~= short.skip(8).push('\\'));
    }
    if share.is_prefix_of(short) {
        let bare = seq!['\\', '\\'] + short.skip(8);
        assert(seq!['\\', '\\'] + long.skip(8) =~= bare.push('\\'));
    }
    let bare = without_verbatim(short);
    assert(without_verbatim(long) == bare.push('\\'));
    assert(bare.push('\\').drop_last() =~= bare);
}

/// A verbatim path of a share is the same as the plain one, which begins with two
/// backslashes.
pub proof fn verbatim_share_is_the_share(rest: Seq<char>)
    requires
        !"\\\\?\\"@.is_prefix_of(replaced("\\\\"@ + rest, '/', '\\')),
    ensures
        windows_form("\\\\?\\UNC\\"@ + rest) == windows_form("\\\\"@ + rest),
{
    reveal_strlit("\\\\");
    reveal_strlit("\\\\?\\");
    reveal_strlit("\\\\?\\UNC\\");
    let share = "\\\\?\\UNC\\"@;
    let plain = replaced("\\\\"@ + rest, '/', '\\');
    let marked = replaced(share + rest, '/', '\\');
    let bare = replaced(rest, '/', '\\');
    assert(plain =~= seq!['\\', '\\'] + bare);
    assert(marked =~= share + bare);
    assert(marked.subrange(0, 8) =~= share);
    assert(marked.skip(8) =~= bare);
    if share.is_prefix_of(plain) {
        assert(plain.subrange(0, 4) =~= plain.subrange(0, 8).subrange(0, 4));
        assert(plain.subrange(0, 4) =~= "\\\\?\\"@);
    }
}

/// A Windows path in its plain form, with backslashes only, no marker and none at its
/// end, is compared as it is but for case.
pub proof fn plain_windows_paths_keep_their_form(path: Seq<char>)
    requires
        forall|i: int| 0 <= i < path.len() ==> #[trigger] path[i] != '/',
        !"\\\\?\\"@.is_prefix_of(path),
        path.len() > 0 ==> path.last() != '\\',
    ensures
        windows_stem(path) == path,
        windows_form(path) == lowercase(path),
{
    reveal_strlit("\\\\?\\");
    reveal_strlit("\\\\?\\UNC\\");
    assert(replaced(path, '/', '\\') =~= path);
    if "\\\\?\\UNC\\"@.is_prefix_of(path) {
        assert(path.subrange(0, 4) =~= path.subrange(0, 8).subrange(0, 4));
        assert(path.subrange(0, 4) =~= "\\\\?\\"@);
    }
}

} // verus!
