use delivery_queue::blog_post_dispatcher::{added_files, announcement, slug, SlugError};
use delivery_queue::routes::blog::get::{listed, listing, newest_first, post_path, PostFile};

fn strings(items: &[&str]) -> Vec<String> {
    items.iter().map(|item| item.to_string()).collect()
}

#[test]
fn posts_are_listed_newest_first() {
    let titles = strings(&[
        "2024-01-15-winter.html",
        "2025-03-02-spring.html",
        "2023-11-30-autumn.html",
        "2024-07-19-summer.html",
    ]);
    assert_eq!(
        newest_first(titles),
        strings(&[
            "2025-03-02-spring.html",
            "2024-07-19-summer.html",
            "2024-01-15-winter.html",
            "2023-11-30-autumn.html",
        ])
    );
}

#[test]
fn listing_order_is_that_of_strings() {
    let titles = strings(&["b", "a", "ab", "", "é", "z", "B", "a"]);
    assert_eq!(newest_first(titles), strings(&["é", "z", "b", "ab", "a", "a", "B", ""]));
    assert_eq!(newest_first(vec![]), Vec::<String>::new());
    assert_eq!(newest_first(strings(&["only"])), strings(&["only"]));
}

#[test]
fn post_path_is_under_the_blog() {
    assert_eq!(post_path("first-post"), "/blog/first-post");
    assert_eq!(post_path(""), "/blog/");
    let post = listed("2024-01-15-winter.html", "<p>Snow</p>".to_string());
    assert_eq!(post.path, "/blog/2024-01-15-winter.html");
    assert_eq!(post.content, "<p>Snow</p>");
}

#[test]
fn added_files_are_the_lines_of_the_listing() {
    assert_eq!(added_files("blog/a.html\nblog/b.html\n"), strings(&["blog/a.html", "blog/b.html"]));
    assert_eq!(added_files(""), Vec::<String>::new());
    assert_eq!(added_files("\n"), strings(&[""]));
    assert_eq!(added_files("blog/é.html\n"), strings(&["blog/é.html"]));
}

#[test]
fn last_line_without_a_line_feed_is_dropped() {
    assert_eq!(added_files("blog/a.html\nblog/b.html"), strings(&["blog/a.html"]));
    assert_eq!(added_files("blog/a.html"), Vec::<String>::new());
    assert_eq!(added_files("a\n\nb\nc"), strings(&["a", "", "b"]));
}

#[test]
fn added_files_agree_with_splitting_and_dropping_the_last_piece() {
    for listing in ["", "\n", "a", "a\n", "a\nb", "a\nb\n", "\n\n", "x\n\ny\n", "日本\n語"] {
        let mut pieces: Vec<String> = listing.split('\n').map(String::from).collect();
        pieces.pop();
        assert_eq!(added_files(listing), pieces);
    }
}

#[test]
fn slug_is_the_file_name_without_directory_and_extension() {
    assert_eq!(slug("blog/first-post.html"), Ok("first-post".to_string()));
    assert_eq!(slug("blog/.html"), Ok("".to_string()));
    assert_eq!(slug("blog/a.html.html"), Ok("a.html".to_string()));
    assert_eq!(slug("blog/blog/a.html"), Ok("blog/a".to_string()));
    assert_eq!(slug("blog/über.html"), Ok("über".to_string()));
}

#[test]
fn file_outside_the_blog_is_refused() {
    assert_eq!(slug("posts/first-post.html"), Err(SlugError::NotUnderBlog));
    assert_eq!(slug("blog"), Err(SlugError::NotUnderBlog));
    assert_eq!(slug(""), Err(SlugError::NotUnderBlog));
    assert_eq!(slug("Blog/a.html"), Err(SlugError::NotUnderBlog));
    assert_eq!(slug("first-post.md"), Err(SlugError::NotUnderBlog));
}

#[test]
fn file_without_the_extension_is_refused() {
    assert_eq!(slug("blog/first-post.md"), Err(SlugError::NotHtml));
    assert_eq!(slug("blog/"), Err(SlugError::NotHtml));
    assert_eq!(slug("blog/html"), Err(SlugError::NotHtml));
    assert_eq!(slug("blog/a.HTML"), Err(SlugError::NotHtml));
}

#[test]
fn slug_agrees_with_stripping_prefix_and_suffix() {
    for file in ["blog/a.html", "blog/.html", "blog/a", "a.html", "blog/x/y.html", "blog/.htm"] {
        let expected = match file.strip_prefix("blog/") {
            None => Err(SlugError::NotUnderBlog),
            Some(rest) => match rest.strip_suffix(".html") {
                None => Err(SlugError::NotHtml),
                Some(name) => Ok(name.to_string()),
            },
        };
        assert_eq!(slug(file), expected);
    }
}

#[test]
fn announcement_links_to_the_post() {
    let app_base_url = "https://blog.example.com";
    let link = format!("{}/blog/{}", app_base_url, "first-post");
    let email = announcement(app_base_url, "first-post");
    assert_eq!(email.subject, "New blog post");
    assert_eq!(
        email.html,
        format!("<p>New blog post! Click <a href={}>here</a> to view.p>", link)
    );
    assert_eq!(email.text, format!("New blog post! Available at {}.", link));
}

#[test]
fn unreadable_posts_are_passed_over() {
    let files = vec![
        PostFile { title: "c.html".to_string(), content: Some("<p>C</p>".to_string()) },
        PostFile { title: "b.html".to_string(), content: None },
        PostFile { title: "a.html".to_string(), content: Some("".to_string()) },
    ];
    let posts = listing(files);
    let listed: Vec<(&str, &str)> =
        posts.iter().map(|post| (post.path.as_str(), post.content.as_str())).collect();
    assert_eq!(listed, vec![("/blog/c.html", "<p>C</p>"), ("/blog/a.html", "")]);
    assert!(listing(vec![]).is_empty());
    assert!(listing(vec![PostFile { title: "x".to_string(), content: None }]).is_empty());
}
