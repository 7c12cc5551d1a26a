//! The client's decisions: response checks, authentication outcome, paging
//! through a project's stories, and the project, status and story lookups.
//! Each network exchange is performed by the caller and handed in as a value
//! or through a fetching closure.
use vstd::prelude::*;
use crate::error::{Hint, TaigaAPIError, exit_code_of, hint_of};
use crate::model::{ProjectListEntry, Status, StatusEntry, UserStory, server_name};
use crate::text::{contains, decimal, i32_text, lemma_contains_middle, signed_decimal, usize_text};

verus! {

/// The service origin used unless another one is configured.
pub const TAIGA_API_URL: &'static str = "https://api.taiga.io/api/v1";

/// The number of stories requested per page.
pub const PAGE_SIZE: usize = 100;

/// An authenticated session with the service.
pub struct TaigaAPI {
    pub auth_token: String,
    pub api_url: String,
}

/// The text of an unexpected response: a context, the status code, the body.
pub open spec fn failure_text(context: Seq<char>, status_code: i32, body: Seq<char>) -> Seq<char> {
    context + "HTTP "@ + signed_decimal(status_code as int) + ": "@ + body
}

/// `e` is an API error whose detail is `m`.
pub open spec fn is_api_error(e: TaigaAPIError, m: Seq<char>) -> bool {
    match e {
        TaigaAPIError::ApiError(x) => x@ == m,
        _ => false,
    }
}

/// Builds the text of an unexpected response.
pub fn failure_message(context: &str, status_code: i32, body: &str) -> (r: String)
    ensures
        r@ == failure_text(context@, status_code, body@),
{
    let mut r = String::from_str(context);
    r.append("HTTP ");
    let code = i32_text(status_code);
    r.append(code.as_str());
    r.append(": ");
    r.append(body);
    r
}

/// `r` is the outcome of checking an answer with `status_code` against the
/// `expected` one: success exactly when they agree, else an API failure
/// whose detail names the context, the code and the body.
pub open spec fn status_check(
    status_code: i32,
    expected: i32,
    context: Seq<char>,
    body: Seq<char>,
    r: Result<(), TaigaAPIError>,
) -> bool {
    &&& r is Ok <==> status_code == expected
    &&& r is Err ==> is_api_error(r->Err_0, failure_text(context, status_code, body))
}

/// Accepts a response whose status code is `expected`; any other code is an
/// API error naming the context, the code and the body.
pub fn expect_status(status_code: i32, expected: i32, context: &str, body: &str) -> (r: Result<
    (),
    TaigaAPIError,
>)
    ensures
        status_check(status_code, expected, context@, body@, r),
{
    if status_code == expected {
        Ok(())
    } else {
        Err(TaigaAPIError::ApiError(failure_message(context, status_code, body)))
    }
}

/// `r` is the session, or the failure, that an answer of the authentication
/// endpoint yields: a code other than 200 is an authentication failure with
/// the code and the body; a 200 with a token is a session holding it; a 200
/// whose token could not be read, for reason `d`, is a parsing failure.
pub open spec fn auth_outcome(
    api_url: Seq<char>,
    status_code: i32,
    body: Seq<char>,
    auth_token: Result<String, String>,
    r: Result<TaigaAPI, TaigaAPIError>,
) -> bool {
    if status_code != 200 {
        match r {
            Err(TaigaAPIError::Authentication(m)) => m@ == failure_text(""@, status_code, body),
            _ => false,
        }
    } else {
        match auth_token {
            Ok(t) => r is Ok && r->Ok_0.auth_token@ == t@ && r->Ok_0.api_url@ == api_url,
            Err(d) => match r {
                Err(TaigaAPIError::DeserializationError(m)) => m@ == d@,
                _ => false,
            },
        }
    }
}

impl TaigaAPI {
    /// The session that an answer of the authentication endpoint yields.
    /// `auth_token` is the token read from the body, or why it could not be read.
    /// A code other than 200 is an authentication failure carrying the code
    /// and the body; a 200 without a readable token is a parsing failure.
    pub fn authenticated(
        api_url: String,
        status_code: i32,
        body: &str,
        auth_token: Result<String, String>,
    ) -> (r: Result<TaigaAPI, TaigaAPIError>)
        ensures
            auth_outcome(api_url@, status_code, body@, auth_token, r),
    {
        if status_code != 200 {
            return Err(TaigaAPIError::Authentication(failure_message("", status_code, body)));
        }
        match auth_token {
            Ok(auth_token) => Ok(TaigaAPI { auth_token, api_url }),
            Err(d) => Err(TaigaAPIError::DeserializationError(d)),
        }
    }
}

/// One page of the story listing: its stories and the three pagination
/// headers as the service sent them, if it sent them.
#[derive(Debug)]
pub struct StoryPage {
    pub stories: Vec<UserStory>,
    /// `x-pagination-count`: the number of stories on this page.
    pub pagination_count: Option<String>,
    /// `x-paginated-by`: the page size the service applied.
    pub paginated_by: Option<String>,
    /// `x-paginated`: whether the listing is paginated at all.
    pub paginated: Option<String>,
}

/// The number that `str::parse::<usize>` reads from a text, if it reads one.
pub uninterp spec fn parsed_usize(s: Seq<char>) -> Option<usize>;

/// Relies on `str::parse::<usize>`: `Some` with the number read, `None` when
/// the text is not a number in range.
#[verifier::external_body]
fn parse_usize(s: &str) -> (r: Option<usize>)
    ensures
        r == parsed_usize(s@),
{
    s.parse::<usize>().ok()
}

/// A header read as a number, `default` when it is missing or unreadable.
pub open spec fn header_number(h: Option<String>, default: usize) -> usize {
    match h {
        Some(s) => match parsed_usize(s@) {
            Some(n) => n,
            None => default,
        },
        None => default,
    }
}

/// A header read as a flag: set only when it is exactly `true`.
pub open spec fn header_flag(h: Option<String>) -> bool {
    match h {
        Some(s) => s@ == "true"@,
        None => false,
    }
}

/// Another page follows `p`: the listing is paginated and `p` was full, its
/// count equal to the page size. A missing count reads as 0, a missing page
/// size as the size requested.
pub open spec fn page_has_more(p: StoryPage, page_size: usize) -> bool {
    header_flag(p.paginated) && header_number(p.pagination_count, 0) == header_number(
        p.paginated_by,
        page_size,
    )
}

fn header_number_of(h: &Option<String>, default: usize) -> (r: usize)
    ensures
        r == header_number(*h, default),
{
    match h {
        Some(s) => match parse_usize(s.as_str()) {
            Some(n) => n,
            None => default,
        },
        None => default,
    }
}

/// Whether another page follows `page`, requested with `page_size`.
pub fn has_more(page: &StoryPage, page_size: usize) -> (r: bool)
    ensures
        r == page_has_more(*page, page_size),
{
    let flag = match &page.paginated {
        Some(s) => *s == String::from_str("true"),
        None => false,
    };
    flag && header_number_of(&page.pagination_count, 0) == header_number_of(
        &page.paginated_by,
        page_size,
    )
}

/// The stories of `pages`, page after page.
pub open spec fn stories_of(pages: Seq<StoryPage>) -> Seq<UserStory>
    decreases pages.len(),
{
    if pages.len() == 0 {
        Seq::empty()
    } else {
        stories_of(pages.drop_last()) + pages.last().stories@
    }
}

/// `pages` are what `fetch` answered for pages 1, 2, ... of the project's
/// listing, each requested with the fixed page size, and each but the last
/// announced another page.
pub open spec fn fetched_run<F: Fn(usize, usize, usize) -> Result<StoryPage, TaigaAPIError>>(
    fetch: F,
    project_id: usize,
    pages: Seq<StoryPage>,
) -> bool {
    &&& forall|i: int|
        0 <= i < pages.len() ==> fetch.ensures(
            (project_id, (i + 1) as usize, PAGE_SIZE),
            Ok(#[trigger] pages[i]),
        )
    &&& forall|i: int| 0 <= i < pages.len() - 1 ==> page_has_more(#[trigger] pages[i], PAGE_SIZE)
}

/// A listing that ended well: the last page of the run announced no other.
pub open spec fn completed_run<F: Fn(usize, usize, usize) -> Result<StoryPage, TaigaAPIError>>(
    fetch: F,
    project_id: usize,
    pages: Seq<StoryPage>,
) -> bool {
    &&& pages.len() > 0
    &&& fetched_run(fetch, project_id, pages)
    &&& !page_has_more(pages.last(), PAGE_SIZE)
}

/// A listing that failed with `e` after the pages of `pages`, each of which
/// announced another: the next request failed, or page numbers ran out.
pub open spec fn failed_run<F: Fn(usize, usize, usize) -> Result<StoryPage, TaigaAPIError>>(
    fetch: F,
    project_id: usize,
    pages: Seq<StoryPage>,
    e: TaigaAPIError,
) -> bool {
    &&& fetched_run(fetch, project_id, pages)
    &&& forall|i: int| 0 <= i < pages.len() ==> page_has_more(#[trigger] pages[i], PAGE_SIZE)
    &&& if pages.len() < usize::MAX {
        fetch.ensures((project_id, (pages.len() + 1) as usize, PAGE_SIZE), Err(e))
    } else {
        is_api_error(e, "Fetching the list of stories did not end."@)
    }
}

impl TaigaAPI {
    /// Lists all stories of a project: requests pages 1, 2, ... through
    /// `fetch_page(project_id, page, page_size)` while each page announces
    /// another, and returns their stories in page order. A failed request
    /// fails the whole listing.
    pub fn list_all_stories<F>(&self, project_id: usize, fetch_page: F) -> (r: Result<
        Vec<UserStory>,
        TaigaAPIError,
    >) where F: Fn(usize, usize, usize) -> Result<StoryPage, TaigaAPIError>
        requires
            forall|p: usize, n: usize, k: usize| #[trigger] fetch_page.requires((p, n, k)),
        ensures
            match r {
                Ok(all) => exists|pages: Seq<StoryPage>|
                    #[trigger] completed_run(fetch_page, project_id, pages) && all@ == stories_of(
                        pages,
                    ),
                Err(e) => exists|pages: Seq<StoryPage>| #[trigger]
                    failed_run(fetch_page, project_id, pages, e),
            },
    {
        let mut all: Vec<UserStory> = Vec::new();
        let mut page: usize = 1;
        let ghost mut pages: Seq<StoryPage> = Seq::empty();
        loop
            invariant
                forall|p: usize, n: usize, k: usize| #[trigger] fetch_page.requires((p, n, k)),
                1 <= page,
                pages.len() == page - 1,
                fetched_run(fetch_page, project_id, pages),
                forall|i: int| 0 <= i < pages.len() ==> page_has_more(#[trigger] pages[i], PAGE_SIZE),
                all@ == stories_of(pages),
            decreases usize::MAX - page,
        {
            match fetch_page(project_id, page, PAGE_SIZE) {
                Err(e) => {
                    proof {
                        assert(failed_run(fetch_page, project_id, pages, e));
                    }
                    return Err(e);
                },
                Ok(mut found) => {
                    let more = has_more(&found, PAGE_SIZE);
                    let ghost before = pages;
                    proof {
                        pages = pages.push(found);
                        assert(pages.drop_last() =~= before);
                        assert(pages[pages.len() - 1] == found);
                    }
                    all.append(&mut found.stories);
                    if !more {
                        proof {
                            assert(completed_run(fetch_page, project_id, pages));
                        }
                        return Ok(all);
                    }
                    if page == usize::MAX {
                        let e = TaigaAPIError::ApiError(
                            String::from_str("Fetching the list of stories did not end."),
                        );
                        proof {
                            assert(failed_run(fetch_page, project_id, pages, e));
                        }
                        return Err(e);
                    }
                    page = page + 1;
                },
            }
        }
    }
}

/// `j` is the first position of `stories` holding public reference `reference`.
pub open spec fn first_with_reference(stories: Seq<UserStory>, reference: usize, j: int) -> bool {
    &&& 0 <= j < stories.len()
    &&& stories[j].reference == reference
    &&& forall|k: int| 0 <= k < j ==> #[trigger] stories[k].reference != reference
}

/// `r` is the outcome of looking up public reference `reference` in
/// `stories`: the internal id of the first story with it, or a not-found
/// failure naming the reference.
pub open spec fn story_lookup(
    stories: Seq<UserStory>,
    reference: usize,
    r: Result<usize, TaigaAPIError>,
) -> bool {
    match r {
        Ok(id) => exists|j: int| #[trigger]
            first_with_reference(stories, reference, j) && stories[j].id == id,
        Err(e) => {
            &&& forall|j: int| 0 <= j < stories.len() ==> #[trigger] stories[j].reference != reference
            &&& match e {
                TaigaAPIError::StoryNotFound(m) => m@ == "User story with ref #"@ + decimal(
                    reference as nat,
                ) + " not found."@,
                _ => false,
            }
        },
    }
}

/// Finds the internal id of the story with public reference `reference`.
pub fn story_id_in(stories: &Vec<UserStory>, reference: usize) -> (r: Result<usize, TaigaAPIError>)
    ensures
        story_lookup(stories@, reference, r),
{
    let mut i: usize = 0;
    while i < stories.len()
        invariant
            i <= stories@.len(),
            forall|k: int| 0 <= k < i ==> #[trigger] stories@[k].reference != reference,
        decreases stories@.len() - i,
    {
        if stories[i].reference == reference {
            proof {
                assert(first_with_reference(stories@, reference, i as int));
            }
            return Ok(stories[i].id);
        }
        i = i + 1;
    }
    let mut m = String::from_str("User story with ref #");
    let number = usize_text(reference);
    m.append(number.as_str());
    m.append(" not found.");
    Err(TaigaAPIError::StoryNotFound(m))
}

/// `r` is the outcome of looking up project `name` among `projects`: the id
/// of the first project with exactly that name, or a not-found failure
/// naming it.
pub open spec fn project_lookup(
    projects: Seq<ProjectListEntry>,
    name: Seq<char>,
    r: Result<usize, TaigaAPIError>,
) -> bool {
    match r {
        Ok(id) => exists|j: int|
            0 <= j < projects.len() && #[trigger] projects[j].name@ == name && projects[j].id == id
                && forall|k: int| 0 <= k < j ==> #[trigger] projects[k].name@ != name,
        Err(e) => {
            &&& forall|j: int| 0 <= j < projects.len() ==> #[trigger] projects[j].name@ != name
            &&& match e {
                TaigaAPIError::ProjectNotFound(m) => m@ == "Could not find a project named "@ + name
                    + ". Please check the project name."@,
                _ => false,
            }
        },
    }
}

/// Finds the id of the project named exactly `name` (case-sensitive).
pub fn project_id_in(projects: &Vec<ProjectListEntry>, name: &str) -> (r: Result<
    usize,
    TaigaAPIError,
>)
    ensures
        project_lookup(projects@, name@, r),
{
    let wanted = String::from_str(name);
    let mut i: usize = 0;
    while i < projects.len()
        invariant
            wanted@ == name@,
            i <= projects@.len(),
            forall|k: int| 0 <= k < i ==> #[trigger] projects@[k].name@ != name@,
        decreases projects@.len() - i,
    {
        if projects[i].name == wanted {
            return Ok(projects[i].id);
        }
        i = i + 1;
    }
    let mut m = String::from_str("Could not find a project named ");
    m.append(name);
    m.append(". Please check the project name.");
    Err(TaigaAPIError::ProjectNotFound(m))
}

/// The detail of the failure for a status missing from a catalog.
pub open spec fn missing_status_text(status: Status) -> Seq<char> {
    "Could not find '"@ + server_name(status) + "' status for project"@
}

/// `r` is the outcome of resolving `status` in `catalog`: the id of the
/// first entry whose name is exactly the status's display name, or an API
/// failure naming that display name.
pub open spec fn status_lookup(
    catalog: Seq<StatusEntry>,
    status: Status,
    r: Result<usize, TaigaAPIError>,
) -> bool {
    match r {
        Ok(id) => exists|j: int|
            0 <= j < catalog.len() && #[trigger] catalog[j].name@ == server_name(status)
                && catalog[j].id == id && forall|k: int|
                0 <= k < j ==> #[trigger] catalog[k].name@ != server_name(status),
        Err(e) => {
            &&& forall|j: int|
                0 <= j < catalog.len() ==> #[trigger] catalog[j].name@ != server_name(status)
            &&& is_api_error(e, missing_status_text(status))
        },
    }
}

/// Resolves a logical status to the id a project's catalog gives it.
pub fn status_id_in(catalog: &Vec<StatusEntry>, status: Status) -> (r: Result<
    usize,
    TaigaAPIError,
>)
    ensures
        status_lookup(catalog@, status, r),
{
    let name = status.server_name();
    let wanted = String::from_str(name);
    let mut i: usize = 0;
    while i < catalog.len()
        invariant
            wanted@ == server_name(status),
            i <= catalog@.len(),
            forall|k: int| 0 <= k < i ==> #[trigger] catalog@[k].name@ != server_name(status),
        decreases catalog@.len() - i,
    {
        if catalog[i].name == wanted {
            return Ok(catalog[i].id);
        }
        i = i + 1;
    }
    let mut m = String::from_str("Could not find '");
    m.append(name);
    m.append("' status for project");
    Err(TaigaAPIError::ApiError(m))
}

impl TaigaAPI {
    /// Finds the internal id of the story with public reference `story_id`
    /// by listing the project's stories through `fetch_page`.
    pub fn get_story_id<F>(&self, project_id: usize, story_id: usize, fetch_page: F) -> (r: Result<
        usize,
        TaigaAPIError,
    >) where F: Fn(usize, usize, usize) -> Result<StoryPage, TaigaAPIError>
        requires
            forall|p: usize, n: usize, k: usize| #[trigger] fetch_page.requires((p, n, k)),
        ensures
            (exists|pages: Seq<StoryPage>| #[trigger]
                completed_run(fetch_page, project_id, pages) && story_lookup(
                    stories_of(pages),
                    story_id,
                    r,
                )) || exists|pages: Seq<StoryPage>, e: TaigaAPIError| #[trigger]
                failed_run(fetch_page, project_id, pages, e) && r == Err::<usize, TaigaAPIError>(e),
    {
        let ghost fetch = fetch_page;
        match self.list_all_stories(project_id, fetch_page) {
            Ok(stories) => {
                let r = story_id_in(&stories, story_id);
                proof {
                    let pages = choose|pages: Seq<StoryPage>|
                        #[trigger] completed_run(fetch, project_id, pages) && stories@ == stories_of(
                            pages,
                        );
                    assert(completed_run(fetch, project_id, pages) && story_lookup(
                        stories_of(pages),
                        story_id,
                        r,
                    ));
                }
                r
            },
            Err(e) => {
                proof {
                    let pages = choose|pages: Seq<StoryPage>| #[trigger]
                        failed_run(fetch, project_id, pages, e);
                    assert(failed_run(fetch, project_id, pages, e));
                }
                Err(e)
            },
        }
    }

    /// Resolves a logical status to the project's status id, reading the
    /// project's status catalog through `fetch_catalog(project_id)`.
    pub fn get_status_id<F>(&self, project_id: usize, status: Status, fetch_catalog: F) -> (r: Result<
        usize,
        TaigaAPIError,
    >) where F: Fn(usize) -> Result<Vec<StatusEntry>, TaigaAPIError>
        requires
            forall|p: usize| #[trigger] fetch_catalog.requires((p,)),
        ensures
            (exists|catalog: Vec<StatusEntry>| #[trigger]
                fetch_catalog.ensures((project_id,), Ok(catalog)) && status_lookup(
                    catalog@,
                    status,
                    r,
                )) || (r is Err && fetch_catalog.ensures((project_id,), Err(r->Err_0))),
    {
        match fetch_catalog(project_id) {
            Ok(catalog) => status_id_in(&catalog, status),
            Err(e) => Err(e),
        }
    }
}

/// An answer of 401 where another code was expected fails as an API
/// failure with exit code 4 whose hint is to check the username and
/// password, provided its text names no server-error code (500, 502, 503),
/// which would take precedence.
pub proof fn lemma_unauthorized_answer(
    expected: i32,
    context: Seq<char>,
    body: Seq<char>,
    r: Result<(), TaigaAPIError>,
)
    requires
        expected != 401,
        status_check(401, expected, context, body, r),
        !contains(failure_text(context, 401, body), "500"@),
        !contains(failure_text(context, 401, body), "502"@),
        !contains(failure_text(context, 401, body), "503"@),
    ensures
        r is Err,
        exit_code_of(r->Err_0) == 4,
        hint_of(r->Err_0) == Hint::Unauthorized,
{
    reveal_strlit("401");
    assert(decimal(4) =~= seq!['4']);
    assert(decimal(40) =~= seq!['4', '0']);
    assert(decimal(401) =~= seq!['4', '0', '1']);
    assert(signed_decimal(401) =~= "401"@);
    let text = failure_text(context, 401, body);
    assert(text =~= (context + "HTTP "@) + "401"@ + (": "@ + body));
    lemma_contains_middle(context + "HTTP "@, "401"@, ": "@ + body);
}

/// A 200 answer of the authentication endpoint whose token cannot be read
/// fails as a parsing failure, with exit code 5.
pub proof fn lemma_unreadable_token(
    api_url: Seq<char>,
    body: Seq<char>,
    reason: String,
    r: Result<TaigaAPI, TaigaAPIError>,
)
    requires
        auth_outcome(api_url, 200, body, Err(reason), r),
    ensures
        r matches Err(TaigaAPIError::DeserializationError(m)) && m@ == reason@,
        exit_code_of(r->Err_0) == 5,
{
}

/// Resolving "work in progress" looks for the display name "In progress";
/// a catalog without it yields an API failure whose text names it.
pub proof fn lemma_wip_resolution(catalog: Seq<StatusEntry>, r: Result<usize, TaigaAPIError>)
    requires
        status_lookup(catalog, Status::Wip, r),
    ensures
        server_name(Status::Wip) == "In progress"@,
        r is Ok ==> exists|j: int|
            0 <= j < catalog.len() && #[trigger] catalog[j].name@ == "In progress"@ && catalog[j].id
                == r->Ok_0,
        (forall|j: int| 0 <= j < catalog.len() ==> #[trigger] catalog[j].name@ != "In progress"@)
            ==> (r matches Err(TaigaAPIError::ApiError(m)) && contains(m@, "In progress"@)),
{
    lemma_contains_middle("Could not find '"@, "In progress"@, "' status for project"@);
}

/// Looking up one public reference twice in the same listing gives the
/// same outcome: both find the same internal id, or both fail.
pub proof fn lemma_story_lookup_repeatable(
    stories: Seq<UserStory>,
    reference: usize,
    r1: Result<usize, TaigaAPIError>,
    r2: Result<usize, TaigaAPIError>,
)
    requires
        story_lookup(stories, reference, r1),
        story_lookup(stories, reference, r2),
    ensures
        r1 is Ok <==> r2 is Ok,
        r1 is Ok ==> r1->Ok_0 == r2->Ok_0,
{
    if r1 is Ok && r2 is Ok {
        let j1 = choose|j: int| #[trigger]
            first_with_reference(stories, reference, j) && stories[j].id == r1->Ok_0;
        let j2 = choose|j: int| #[trigger]
            first_with_reference(stories, reference, j) && stories[j].id == r2->Ok_0;
        if j1 < j2 {
            assert(stories[j1].reference != reference);
        } else if j2 < j1 {
            assert(stories[j2].reference != reference);
        }
    } else if r1 is Ok {
        let j1 = choose|j: int| #[trigger]
            first_with_reference(stories, reference, j) && stories[j].id == r1->Ok_0;
        assert(stories[j1].reference == reference);
    } else if r2 is Ok {
        let j2 = choose|j: int| #[trigger]
            first_with_reference(stories, reference, j) && stories[j].id == r2->Ok_0;
        assert(stories[j2].reference == reference);
    }
}

/// A story that the listing holds under `reference` (as one just created
/// is, absent concurrent changes) is found: the lookup yields the internal
/// id of a story carrying that reference.
pub proof fn lemma_listed_story_found(
    stories: Seq<UserStory>,
    reference: usize,
    r: Result<usize, TaigaAPIError>,
)
    requires
        exists|j: int| 0 <= j < stories.len() && #[trigger] stories[j].reference == reference,
        story_lookup(stories, reference, r),
    ensures
        r is Ok,
        exists|j: int|
            0 <= j < stories.len() && #[trigger] stories[j].reference == reference && stories[j].id
                == r->Ok_0,
{
    if r is Ok {
        let j = choose|j: int| #[trigger]
            first_with_reference(stories, reference, j) && stories[j].id == r->Ok_0;
        assert(stories[j].reference == reference);
    } else {
        let j = choose|j: int| 0 <= j < stories.len() && #[trigger] stories[j].reference == reference;
        assert(stories[j].reference != reference);
    }
}

/// A completed listing whose first page is not marked as paginated (the
/// flag is missing or is not `true`) consists of that page alone, whatever
/// the number of stories on it.
pub proof fn lemma_unpaginated_first_page<F: Fn(usize, usize, usize) -> Result<
    StoryPage,
    TaigaAPIError,
>>(fetch: F, project_id: usize, pages: Seq<StoryPage>)
    requires
        completed_run(fetch, project_id, pages),
        !header_flag(pages[0].paginated),
    ensures
        pages.len() == 1,
        stories_of(pages) == pages[0].stories@,
{
    if pages.len() > 1 {
        assert(page_has_more(pages[0], PAGE_SIZE));
    }
    assert(pages.drop_last() =~= Seq::<StoryPage>::empty());
    assert(stories_of(pages.drop_last()) =~= Seq::<UserStory>::empty());
    assert(stories_of(pages) =~= pages[0].stories@);
}

/// The body of a story creation request.
#[derive(Debug)]
pub struct NewStory {
    pub project: usize,
    pub subject: String,
    pub description: String,
    /// The project's id for the initial status.
    pub status: usize,
}

/// The body of a status change request for one story.
#[derive(Debug, Clone, Copy, PartialEq, Eq, Structural)]
pub struct StatusChange {
    /// The story's internal id.
    pub story: usize,
    /// The project's id for the new status.
    pub status: usize,
    /// The story's version as read just before the change.
    pub version: usize,
}

/// `r` is what creating a story with `subject`, `description` and `status`
/// came to: the catalog was read (or its failure returned); the status was
/// resolved in it (or its failure returned); then the request carrying the
/// project, the texts and the resolved id was sent and its answer returned.
pub open spec fn creation_outcome<C, P>(
    fetch_catalog: C,
    post_story: P,
    project_id: usize,
    subject: Seq<char>,
    description: Seq<char>,
    status: Status,
    r: Result<usize, TaigaAPIError>,
) -> bool where
    C: Fn(usize) -> Result<Vec<StatusEntry>, TaigaAPIError>,
    P: Fn(NewStory) -> Result<usize, TaigaAPIError>,
 {
    ||| exists|e: TaigaAPIError| #[trigger]
        fetch_catalog.ensures((project_id,), Err(e)) && r == Err::<usize, TaigaAPIError>(e)
    ||| exists|catalog: Vec<StatusEntry>| #[trigger]
        fetch_catalog.ensures((project_id,), Ok(catalog)) && {
            ||| (r is Err && status_lookup(catalog@, status, r))
            ||| exists|draft: NewStory|
                status_lookup(catalog@, status, Ok(draft.status)) && draft.project == project_id
                    && draft.subject@ == subject && draft.description@ == description
                    && #[trigger] post_story.ensures((draft,), r)
        }
}

/// `r` is what moving story `user_story_id` to `status` came to: the
/// catalog was read and the status resolved in it; then the story's current
/// version was read; then the change carrying the resolved id and that
/// version unchanged was sent and its answer returned. The first step that
/// failed gave the failure.
pub open spec fn update_outcome<C, V, P>(
    fetch_catalog: C,
    fetch_version: V,
    patch_story: P,
    project_id: usize,
    user_story_id: usize,
    status: Status,
    r: Result<(), TaigaAPIError>,
) -> bool where
    C: Fn(usize) -> Result<Vec<StatusEntry>, TaigaAPIError>,
    V: Fn(usize) -> Result<usize, TaigaAPIError>,
    P: Fn(StatusChange) -> Result<(), TaigaAPIError>,
 {
    ||| exists|e: TaigaAPIError| #[trigger]
        fetch_catalog.ensures((project_id,), Err(e)) && r == Err::<(), TaigaAPIError>(e)
    ||| exists|catalog: Vec<StatusEntry>| #[trigger]
        fetch_catalog.ensures((project_id,), Ok(catalog)) && {
            ||| exists|e: TaigaAPIError| #[trigger]
                status_lookup(catalog@, status, Err(e)) && r == Err::<(), TaigaAPIError>(e)
            ||| exists|status_id: usize| #[trigger]
                status_lookup(catalog@, status, Ok(status_id)) && {
                    ||| exists|e: TaigaAPIError| #[trigger]
                        fetch_version.ensures((user_story_id,), Err(e)) && r == Err::<
                            (),
                            TaigaAPIError,
                        >(e)
                    ||| exists|version: usize| #[trigger]
                        fetch_version.ensures((user_story_id,), Ok(version)) && patch_story.ensures(
                            (StatusChange { story: user_story_id, status: status_id, version },),
                            r,
                        )
                }
        }
}

impl TaigaAPI {
    /// Creates a story: resolves `status` in the project's catalog, read
    /// through `fetch_catalog`, then sends the new story through
    /// `post_story`, which answers with the public reference assigned.
    pub fn create_story<C, P>(
        &self,
        project_id: usize,
        subject: &str,
        description: &str,
        status: Status,
        fetch_catalog: C,
        post_story: P,
    ) -> (r: Result<usize, TaigaAPIError>) where
        C: Fn(usize) -> Result<Vec<StatusEntry>, TaigaAPIError>,
        P: Fn(NewStory) -> Result<usize, TaigaAPIError>,

        requires
            forall|p: usize| #[trigger] fetch_catalog.requires((p,)),
            forall|d: NewStory| #[trigger] post_story.requires((d,)),
        ensures
            creation_outcome(fetch_catalog, post_story, project_id, subject@, description@, status, r),
    {
        let catalog = match fetch_catalog(project_id) {
            Ok(catalog) => catalog,
            Err(e) => return Err(e),
        };
        let status_id = match status_id_in(&catalog, status) {
            Ok(id) => id,
            Err(e) => {
                let r: Result<usize, TaigaAPIError> = Err(e);
                proof {
                    assert(r is Err && status_lookup(catalog@, status, r));
                }
                return r;
            },
        };
        let draft = NewStory {
            project: project_id,
            subject: String::from_str(subject),
            description: String::from_str(description),
            status: status_id,
        };
        let ghost sent = draft;
        let r = post_story(draft);
        proof {
            assert(post_story.ensures((sent,), r));
        }
        r
    }

    /// Moves story `user_story_id` to `status`: resolves the status in the
    /// project's catalog, read through `fetch_catalog`, reads the story's
    /// current version through `fetch_version`, and sends both through
    /// `patch_story`. The version is read immediately before the change and
    /// sent unchanged; a concurrent change in between is refused by the
    /// service and reported, not retried.
    pub fn update_story_status<C, V, P>(
        &self,
        project_id: usize,
        user_story_id: usize,
        status: Status,
        fetch_catalog: C,
        fetch_version: V,
        patch_story: P,
    ) -> (r: Result<(), TaigaAPIError>) where
        C: Fn(usize) -> Result<Vec<StatusEntry>, TaigaAPIError>,
        V: Fn(usize) -> Result<usize, TaigaAPIError>,
        P: Fn(StatusChange) -> Result<(), TaigaAPIError>,

        requires
            forall|p: usize| #[trigger] fetch_catalog.requires((p,)),
            forall|s: usize| #[trigger] fetch_version.requires((s,)),
            forall|c: StatusChange| #[trigger] patch_story.requires((c,)),
        ensures
            update_outcome(
                fetch_catalog,
                fetch_version,
                patch_story,
                project_id,
                user_story_id,
                status,
                r,
            ),
    {
        let catalog = match fetch_catalog(project_id) {
            Ok(catalog) => catalog,
            Err(e) => return Err(e),
        };
        let status_id = match status_id_in(&catalog, status) {
            Ok(id) => id,
            Err(e) => {
                let r: Result<(), TaigaAPIError> = Err(e);
                proof {
                    assert(status_lookup(catalog@, status, Err(e)) && r == Err::<(), TaigaAPIError>(e));
                }
                return r;
            },
        };
        let version = match fetch_version(user_story_id) {
            Ok(v) => v,
            Err(e) => {
                proof {
                    assert(status_lookup(catalog@, status, Ok(status_id)));
                }
                return Err(e);
            },
        };
        let change = StatusChange { story: user_story_id, status: status_id, version };
        let r = patch_story(change);
        proof {
            assert(status_lookup(catalog@, status, Ok(status_id)));
            assert(fetch_version.ensures((user_story_id,), Ok(version)));
        }
        r
    }
}

} // verus!
