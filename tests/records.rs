use hooksaurus_admin::article::ArticleFromQuery;
use hooksaurus_admin::ids::{AuctionId, Etag, OrganizationId, AddressId, Timestamp};
use hooksaurus_admin::records::{Auction, OrgType, Organization};

#[test]
fn auction_and_organization_rows() {
    let a = Auction {
        auction_id: AuctionId(3),
        title: "Gala".to_string(),
        description: String::new(),
        start_date: Timestamp { unix_nanos: 1 },
        end_date: Timestamp { unix_nanos: 2 },
        benefits_organization_id: None,
        created_at: Timestamp { unix_nanos: 10 },
        updated_at: Timestamp { unix_nanos: 20 },
        etag: Etag(0),
    };
    let row = a.admin_row();
    assert_eq!((row.pk, row.name.as_str()), (3, "Gala"));
    assert_eq!(row.created_at, Timestamp { unix_nanos: 10 });
    let o = Organization {
        organization_id: OrganizationId(4),
        org_type: OrgType::FarmAnimalSanctuary,
        name: "Shore Sanctuary".to_string(),
        description: None,
        image: None,
        email: "a@b.c".to_string(),
        website: "https://example.org".to_string(),
        contact_name: None,
        phone_number: None,
        alt_phone_number: None,
        primary_address_id: AddressId(1),
        created_at: Timestamp { unix_nanos: 1 },
        updated_at: Timestamp { unix_nanos: 2 },
        etag: Etag(5),
    };
    let row = o.admin_row();
    assert_eq!((row.pk, row.name.as_str()), (4, "Shore Sanctuary"));
    assert_eq!(row.updated_at, Timestamp { unix_nanos: 2 });
}

#[test]
fn article_from_query() {
    let q = ArticleFromQuery {
        slug: "s".to_string(),
        title: "T".to_string(),
        description: "d".to_string(),
        body: "b".to_string(),
        tag_list: vec!["x".to_string()],
        created_at: Timestamp { unix_nanos: 1 },
        updated_at: Timestamp { unix_nanos: 2 },
        favorited: true,
        favorites_count: 3,
        author_username: "u".to_string(),
        author_bio: "bio".to_string(),
        author_image: None,
        following_author: false,
    };
    let a = q.into_article();
    assert_eq!(a.author.username, "u");
    assert_eq!(a.author.bio, "bio");
    assert_eq!(a.tag_list, vec!["x".to_string()]);
    assert_eq!(a.updated_at, Timestamp { unix_nanos: 2 });
}
