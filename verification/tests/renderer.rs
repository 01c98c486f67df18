use blog_renderer::catalog::get_post_summaries;
use blog_renderer::dom::Dom;
use blog_renderer::fetch::collapse_fetch;
use blog_renderer::fetch::post_url;
use blog_renderer::render::create_post_list_element;
use blog_renderer::render::render;
use blog_renderer::render::render_post;
use blog_renderer::render::render_posts_list;
use blog_renderer::render::RenderError;

fn page_with(ids: &[&str]) -> Dom {
    let mut dom = Dom::new();
    for id in ids {
        dom.add_element((*id).to_string());
    }
    dom
}

#[test]
fn catalog_is_fixed_and_ordered() {
    let posts = get_post_summaries();
    assert_eq!(posts.len(), 2);
    assert_eq!(posts[0].id, "hello");
    assert_eq!(posts[0].title, "Hello, World");
    assert_eq!(posts[1].id, "two");
    assert_eq!(posts[1].title, "Post Two");
    let again = get_post_summaries();
    assert_eq!(again.len(), 2);
    assert_eq!(again[0].id, posts[0].id);
    assert_eq!(again[1].title, posts[1].title);
}

#[test]
fn post_url_is_conventional_path() {
    assert_eq!(post_url("hello"), "/markdown/hello.md");
    assert_eq!(post_url("two"), "/markdown/two.md");
    assert_eq!(post_url(""), "/markdown/.md");
}

#[test]
fn fetch_success_yields_body() {
    // A response with a success status and the body "# Hello" yields that
    // body, verbatim.
    let r = collapse_fetch(true, Some("# Hello".to_string()));
    assert_eq!(r, Some("# Hello".to_string()));
}

#[test]
fn fetch_failure_collapses_to_absent() {
    // A missing resource: the server answered, but not with success.
    assert_eq!(collapse_fetch(false, Some("Not Found".to_string())), None);
    // A network error: no body was ever read.
    assert_eq!(collapse_fetch(false, None), None);
    // A body that could not be decoded after a success status.
    assert_eq!(collapse_fetch(true, None), None);
}

#[test]
fn list_entry_carries_title_and_bindings() {
    let posts = get_post_summaries();
    let item = create_post_list_element(&posts[1], "post");
    assert_eq!(item.title, "Post Two");
    assert_eq!(item.post_id, "two");
    assert_eq!(item.target_id, "post");
}

#[test]
fn list_renderer_produces_one_entry_per_post_in_order() {
    let mut dom = page_with(&["list", "post"]);
    let r = render_posts_list(&mut dom, "list", "post");
    assert!(r.is_ok());
    let posts = get_post_summaries();
    let list = &dom.elements[0];
    assert_eq!(list.items.len(), posts.len());
    for (item, post) in list.items.iter().zip(posts.iter()) {
        assert_eq!(item.title, post.title);
        assert_eq!(item.post_id, post.id);
        assert_eq!(item.target_id, "post");
    }
    assert_eq!(list.items[0].title, "Hello, World");
    assert_eq!(list.items[1].title, "Post Two");
    // The rest of the page is untouched.
    assert_eq!(dom.elements[1].text, "");
    assert_eq!(dom.elements[1].items.len(), 0);
}

#[test]
fn post_renderer_writes_fetched_text() {
    let mut dom = page_with(&["content"]);
    let r = render_post(&mut dom, "content", Some("# Hello".to_string()));
    assert!(r.is_ok());
    assert_eq!(dom.elements[0].text, "# Hello");
}

#[test]
fn render_populates_list_and_post() {
    let mut dom = page_with(&["list", "post"]);
    let body = "# Hello";
    let r = render(&mut dom, "list", "post", Some(body.to_string()));
    assert!(r.is_ok());
    assert_eq!(dom.elements[0].items.len(), 2);
    assert_eq!(dom.elements[0].items[0].title, "Hello, World");
    assert_eq!(dom.elements[0].items[1].title, "Post Two");
    assert_eq!(dom.elements[1].text, body);
}

#[test]
fn missing_list_container_aborts() {
    let mut dom = page_with(&["post"]);
    let r = render_posts_list(&mut dom, "list", "post");
    assert_eq!(r, Err(RenderError::MissingElement));
    // Nothing was rendered anywhere.
    assert_eq!(dom.elements[0].items.len(), 0);
    assert_eq!(dom.elements[0].text, "");
}

#[test]
fn missing_post_container_aborts() {
    let mut dom = page_with(&["other"]);
    let r = render_post(&mut dom, "content", Some("# Hello".to_string()));
    assert_eq!(r, Err(RenderError::MissingElement));
    assert_eq!(dom.elements[0].text, "");
}

#[test]
fn missing_container_aborts_whole_render() {
    let mut dom = page_with(&["post"]);
    let r = render(&mut dom, "list", "post", Some("# Hello".to_string()));
    assert_eq!(r, Err(RenderError::MissingElement));

    let mut dom = page_with(&["list"]);
    let r = render(&mut dom, "list", "post", Some("# Hello".to_string()));
    assert_eq!(r, Err(RenderError::MissingElement));
    // The list renderer had already run when the post container was found
    // missing: its work is kept.
    assert_eq!(dom.elements[0].items.len(), 2);
}

#[test]
fn absent_post_aborts_render() {
    let mut dom = page_with(&["content"]);
    let r = render_post(&mut dom, "content", None);
    assert_eq!(r, Err(RenderError::PostUnavailable));
    assert_eq!(dom.elements[0].text, "");

    let mut dom = page_with(&["list", "post"]);
    let r = render(&mut dom, "list", "post", None);
    assert_eq!(r, Err(RenderError::PostUnavailable));
}

#[test]
fn last_resolving_fetch_wins() {
    // Two clicks in quick succession: the post clicked first resolves after
    // the one clicked second. Writes land in resolution order, and the
    // later-resolving fetch's text is what stays.
    let mut dom = page_with(&["post"]);
    let clicked_first = "body of the first-clicked post";
    let clicked_second = "body of the second-clicked post";
    // The second click's fetch resolves first...
    let r = render_post(&mut dom, "post", Some(clicked_second.to_string()));
    assert!(r.is_ok());
    // ...and the first click's fetch resolves after it.
    let r = render_post(&mut dom, "post", Some(clicked_first.to_string()));
    assert!(r.is_ok());
    assert_eq!(dom.elements[0].text, clicked_first);
}

#[test]
fn lookup_finds_elements_by_id() {
    let dom = page_with(&["list", "post"]);
    assert_eq!(dom.get_element_by_id("list"), Some(0));
    assert_eq!(dom.get_element_by_id("post"), Some(1));
    assert_eq!(dom.get_element_by_id("absent"), None);
}
