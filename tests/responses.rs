use school_backend::error::{success_response, Error, Fault};
use school_backend::extract::{Json, Path, Query};
use school_backend::pagination::{mark_range, Listing, Page};

#[test]
fn every_listing_caps_a_huge_count() {
    let expected = [
        (Listing::Subjects, 50),
        (Listing::Classes, 50),
        (Listing::Rooms, 100),
        (Listing::Students, 100),
        (Listing::Teachers, 100),
        (Listing::Principals, 100),
        (Listing::Marks, 500),
    ];
    for (listing, max) in expected {
        let page = listing.page(Some(10000), None);
        assert_eq!(page.count, max);
        assert!(page.count <= listing.limits().max_count);
        assert_eq!(page.offset, 0);
    }
}

#[test]
fn page_defaults_and_clamps() {
    assert_eq!(Listing::Subjects.page(None, None), Page { count: 50, offset: 0 });
    assert_eq!(Listing::Marks.page(None, None), Page { count: 500, offset: 0 });
    assert_eq!(Listing::Rooms.page(Some(-5), Some(-1)), Page { count: 0, offset: 0 });
    assert_eq!(Listing::Rooms.page(Some(30), Some(40)), Page { count: 30, offset: 40 });
    assert_eq!(Listing::Teachers.page(Some(i64::MAX), Some(i64::MAX)), Page { count: 100, offset: 2000 });
    assert_eq!(Listing::Students.page(None, Some(20000)), Page { count: 50, offset: 10000 });
    assert_eq!(Listing::Classes.page(Some(50), Some(5000)), Page { count: 50, offset: 5000 });
}

#[test]
fn mark_bounds_default_to_the_scale() {
    assert_eq!(mark_range(None, None), (2, 5));
    assert_eq!(mark_range(Some(3), None), (3, 5));
    assert_eq!(mark_range(None, Some(4)), (2, 4));
}

#[test]
fn server_errors_hide_their_detail() {
    let e = Error::Store { detail: "relation \"x\" does not exist".to_owned() };
    assert_eq!(e.text(), "Sqlx: relation \"x\" does not exist");
    let r = e.into_response();
    assert_eq!(r.status, 500);
    assert_eq!(
        r.body,
        "{\"message\":\"Внутренняя серверная ошибка, обратитесь к администрации\",\"field\":null,\"success\":false}"
    );
    let io = Error::Io { detail: "broken pipe".to_owned() };
    assert_eq!(io.text(), "Io: broken pipe");
    assert_eq!(io.status(), 500);
}

#[test]
fn rejection_text_is_escaped_in_the_body() {
    let e = Error::JsonRejection { detail: "missing field `name` at \"body\"\n".to_owned() };
    assert_eq!(e.status(), 400);
    assert_eq!(
        e.into_response().body,
        "{\"message\":\"missing field `name` at \\\"body\\\"\\n\",\"field\":null,\"success\":false}"
    );
}

#[test]
fn mfa_points_at_its_field() {
    let e = Error::Mfa;
    assert_eq!(e.status(), 400);
    assert_eq!(e.field(), Some("2fa".to_owned()));
    assert_eq!(
        e.into_response().body,
        "{\"message\":\"Необходима двухвакторная авторизация\",\"field\":\"2fa\",\"success\":false}"
    );
}

#[test]
fn fault_statuses() {
    assert_eq!(Fault::SessionRequired.status(), 401);
    assert_eq!(Fault::PrincipalMissing.status(), 404);
    assert_eq!(Fault::SubjectExists.status(), 400);
    assert_eq!(Fault::TeacherIdRequired.message(), "teacher_id is required");
    assert_eq!(Error::Domain(Fault::StudentExists).client_message(), "Такой ученик уже существует в данном классе");
}

#[test]
fn success_envelope() {
    let r = success_response("{\"id\":1,\"name\":\"Math\"}");
    assert_eq!(r.status, 200);
    assert_eq!(r.body, "{\"data\":{\"id\":1,\"name\":\"Math\"},\"success\":true}");
    let j = Json("[]".to_owned()).into_response();
    assert_eq!(j.body, "{\"data\":[],\"success\":true}");
}

#[test]
fn extractor_rejections() {
    assert_eq!(
        Json::<i32>::extracted(Err("bad body".to_owned())).err(),
        Some(Error::JsonRejection { detail: "bad body".to_owned() })
    );
    assert_eq!(
        Query::<i32>::extracted(Err("bad query".to_owned())).err(),
        Some(Error::QueryRejection { detail: "bad query".to_owned() })
    );
    assert_eq!(
        Path::<i32>::extracted(Err("bad path".to_owned())).err(),
        Some(Error::PathRejection { detail: "bad path".to_owned() })
    );
    assert_eq!(Path::extracted(Ok(7)).ok().map(|p| p.0), Some(7));
    assert_eq!(Query::extracted(Ok(8)).ok().map(|q| q.0), Some(8));
    assert_eq!(Json::extracted(Ok(9)).ok().map(|j| j.0), Some(9));
}
