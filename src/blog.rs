use vstd::prelude::*;

verus! {

/// Whether `p` occurs in `s` as a contiguous run of characters.
pub open spec fn occurs_in(s: Seq<char>, p: Seq<char>) -> bool {
    exists|i: int| 0 <= i && i + p.len() <= s.len() && #[trigger] s.subrange(i, i + p.len()) == p
}

/// Relies on `str::contains`: true exactly when the pattern matches a
/// sub-slice of the string.
#[verifier::external_body]
fn str_contains(s: &str, p: &str) -> (r: bool)
    ensures
        r == occurs_in(s@, p@),
{
    s.contains(p)
}

/// The HTML that pulldown-cmark renders for a markdown text.
pub uninterp spec fn html_of(markdown: Seq<char>) -> Seq<char>;

/// The markup that ammonia's default policy keeps of an HTML text.
pub uninterp spec fn cleaned_of(html: Seq<char>) -> Seq<char>;

/// Relies on `pulldown_cmark::Parser::new` and `pulldown_cmark::html::push_html`:
/// the HTML rendering of the markdown, a function of the text alone.
#[verifier::external_body]
fn markdown_to_html(markdown: &str) -> (r: String)
    ensures
        r@ == html_of(markdown@),
{
    let mut out = String::new();
    pulldown_cmark::html::push_html(&mut out, pulldown_cmark::Parser::new(markdown));
    out
}

/// Relies on `ammonia::clean`: the HTML sanitized under ammonia's default
/// policy, a function of the text alone.
#[verifier::external_body]
fn sanitize_html(html: &str) -> (r: String)
    ensures
        r@ == cleaned_of(html@),
{
    ammonia::clean(html)
}

/// One blog post file: its full path and its bare file name.
#[derive(Debug)]
pub struct BlogPost {
    pub path: String,
    pub file_name: String,
}

/// Why no post could be chosen.
#[derive(Debug, Clone, Copy, PartialEq, Eq, Structural)]
pub enum BlogError {
    /// The blog directory holds no post.
    NoPosts,
    /// No post path contains the requested selection.
    NotFound,
}

/// The post to show, and the file names of its neighbours in sorted order.
#[derive(Debug)]
pub struct PostChoice {
    pub index: usize,
    pub path: String,
    pub previous: Option<String>,
    pub next: Option<String>,
}

/// The index of the post to show: the first whose path contains the
/// selection, or the newest (last) when there is no selection.
pub open spec fn chosen_index(posts: Seq<BlogPost>, selection: Option<Seq<char>>, i: int) -> bool {
    match selection {
        None => i == posts.len() - 1,
        Some(sel) => 0 <= i < posts.len() && occurs_in(posts[i].path@, sel) && forall|j: int|
            0 <= j < i ==> !occurs_in(#[trigger] posts[j].path@, sel),
    }
}

/// The file name of the post at `i`, if there is one.
pub open spec fn name_at(posts: Seq<BlogPost>, i: int) -> Option<Seq<char>> {
    if 0 <= i < posts.len() {
        Some(posts[i].file_name@)
    } else {
        None
    }
}

/// The model of an optional name.
pub open spec fn opt_view(o: Option<String>) -> Option<Seq<char>> {
    match o {
        Some(s) => Some(s@),
        None => None,
    }
}

fn name_of(posts: &Vec<BlogPost>, i: usize) -> (r: Option<String>)
    ensures
        opt_view(r) == name_at(posts@, i as int),
{
    if i < posts.len() {
        Some(posts[i].file_name.clone())
    } else {
        None
    }
}

/// Picks the post to show among `posts` (sorted by path) and names its
/// previous and next neighbours. No posts at all is `NoPosts`, whatever the
/// selection; a selection that no path contains is `NotFound`.
pub fn choose_post(posts: &Vec<BlogPost>, selection: Option<&str>) -> (r: Result<PostChoice, BlogError>)
    ensures
        posts@.len() == 0 ==> r == Err::<PostChoice, BlogError>(BlogError::NoPosts),
        posts@.len() > 0 ==> (r == Err::<PostChoice, BlogError>(BlogError::NotFound) <==> (
        selection matches Some(sel) && forall|j: int|
            0 <= j < posts@.len() ==> !occurs_in(#[trigger] posts@[j].path@, sel@))),
        r matches Ok(c) ==> ({
            let sel = match selection {
                Some(s) => Some(s@),
                None => None,
            };
            &&& chosen_index(posts@, sel, c.index as int)
            &&& c.path@ == posts@[c.index as int].path@
            &&& opt_view(c.previous) == name_at(posts@, c.index - 1)
            &&& opt_view(c.next) == name_at(posts@, c.index + 1)
        }),
{
    let n = posts.len();
    if n == 0 {
        return Err(BlogError::NoPosts);
    }
    let index = match selection {
        None => n - 1,
        Some(sel) => {
            let mut i: usize = 0;
            let mut found: Option<usize> = None;
            while i < n && found.is_none()
                invariant
                    n == posts@.len(),
                    0 <= i <= n,
                    found is None ==> forall|j: int| 0 <= j < i ==> !occurs_in(#[trigger] posts@[j].path@, sel@),
                    found matches Some(k) ==> (k < n && occurs_in(posts@[k as int].path@, sel@)
                        && forall|j: int| 0 <= j < k ==> !occurs_in(#[trigger] posts@[j].path@, sel@)),
                decreases n - i + (if found is None { 1int } else { 0int }),
            {
                if str_contains(posts[i].path.as_str(), sel) {
                    found = Some(i);
                } else {
                    i = i + 1;
                }
            }
            match found {
                Some(k) => k,
                None => {
                    return Err(BlogError::NotFound);
                },
            }
        },
    };
    let previous = if index > 0 {
        name_of(posts, index - 1)
    } else {
        None
    };
    let next = name_of(posts, index + 1);
    Ok(PostChoice { index, path: posts[index].path.clone(), previous, next })
}

/// A rendered post as it is sent to the browser.
#[derive(Debug)]
pub struct BlogContent {
    pub markup: String,
    pub previous: Option<String>,
    pub next: Option<String>,
}

/// Renders a post's markdown to sanitized HTML and attaches its neighbours.
pub fn render_post(markdown: &str, previous: Option<String>, next: Option<String>) -> (r: BlogContent)
    ensures
        r.markup@ == cleaned_of(html_of(markdown@)),
        r.previous == previous,
        r.next == next,
{
    let html = markdown_to_html(markdown);
    let markup = sanitize_html(html.as_str());
    BlogContent { markup, previous, next }
}

} // verus!
