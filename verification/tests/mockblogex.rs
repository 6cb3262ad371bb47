use primer::mockblogex::Post;

#[test]
fn a_post_is_published_after_review_and_approval() {
    let mut post = Post::new();

    post.add_text("Hello");
    post.add_text(" ");

    let post = post.request_review();
    let mut post = post.reject();

    post.add_text("World");

    let post = post.request_review();
    let post = post.approve();
    assert_eq!("Hello World", post.content());
}

#[test]
fn a_post_without_text_can_be_published() {
    let post = Post::new().request_review().approve();
    assert_eq!("", post.content());
}
