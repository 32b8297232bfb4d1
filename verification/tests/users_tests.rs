use tlmd::users::list_real_users;

#[test]
fn lists_real_users_in_file_order() {
    let content = "root:x:0:0:root:/root:/bin/bash\n\
alice:x:1000:1000:Alice:/home/alice:/bin/bash\n\
nobody:x:65534:65534:nobody:/nonexistent:/usr/sbin/nologin\n\
bob:x:1001:1001::/home/bob:/usr/bin/zsh\r\n\
svc:x:1002:1002::/var/svc:/usr/sbin/nologin\r\n\
carol:x:+1003:1003::/home/carol:/bin/sh\n\
dave:x:-1004:1004::/home/dave:/bin/sh\n\
eve:x:99999999999:1::/home/eve:/bin/sh\n\
short:x:1005\n\
frank:x:1006:1006::/home/frank:/bin/false\n\
gina:x:1007:1007::/home/gina:/bin/fish:extra";
    let users = list_real_users(content);
    assert_eq!(users, vec!["alice", "bob", "carol", "gina"]);
}

#[test]
fn empty_passwd_has_no_users() {
    assert!(list_real_users("").is_empty());
    assert!(list_real_users("\n\n").is_empty());
}

#[test]
fn uid_limits() {
    let content = "a:x:999:1::/h:/bin/sh\nb:x:1000:1::/h:/bin/sh\nc:x:65534:1::/h:/bin/sh\nd:x:65535:1::/h:/bin/sh\ne:x:4294967295:1::/h:/bin/sh\nf:x:4294967296:1::/h:/bin/sh\ng:x::1::/h:/bin/sh\nh:x:+:1::/h:/bin/sh\ni:x:10a0:1::/h:/bin/sh\n";
    assert_eq!(list_real_users(content), vec!["b", "d", "e"]);
}

#[test]
fn carriage_return_kept_without_line_feed() {
    // Only a carriage return before a line feed is dropped: here the shell
    // field ends in "\r", so it does not end with "/nologin".
    let content = "ann:x:1010:1010::/h:/sbin/nologin\r\nhal:x:1011:1011::/h:/sbin/nologin\r";
    assert_eq!(list_real_users(content), vec!["hal"]);
}

#[test]
fn shell_suffixes_are_matched_at_the_end_only() {
    let content = "a:x:2000:1::/h:/usr/bin/nologin-not\nb:x:2001:1::/h:/false/bin/sh\nc:x:2002:1::/h:nologin\n";
    assert_eq!(list_real_users(content), vec!["a", "b", "c"]);
}
