use contract_mutex::addr::Addr;
use contract_mutex::contract::{
    execute, execute_lock, execute_unlock, instantiate, query, query_lock, query_whitelist,
};
use contract_mutex::error::ContractError;
use contract_mutex::event::{decimal_string, Attribute};
use contract_mutex::msg::{
    ExecuteMsg, InstantiateMsg, LockResponse, QueryMsg, QueryResponse, WhitelistResponse,
};
use contract_mutex::state::{Lock, Whitelist};

fn addr(s: &str) -> Addr {
    Addr::unchecked(s)
}

fn attr(k: &str, v: &str) -> Attribute {
    Attribute {
        key: k.to_string(),
        value: v.to_string(),
    }
}

fn setup(height: u64) -> (Lock, Whitelist) {
    instantiate(
        height,
        InstantiateMsg {
            whitelist: vec![addr("A"), addr("B")],
        },
    )
}

fn unauthorized(message: &str) -> ContractError {
    ContractError::Unauthorized {
        message: message.to_string(),
    }
}

fn lock_of(lock: &Lock) -> LockResponse {
    query_lock(lock)
}

#[test]
fn scenario_two_members() {
    let (mut lock, whitelist) = setup(10);
    assert_eq!(
        lock_of(&lock),
        LockResponse {
            since_height: 10,
            owner: None
        }
    );

    let r = execute(&mut lock, &whitelist, &addr("A"), 20, ExecuteMsg::Lock {});
    assert_eq!(
        r,
        Ok(vec![
            attr("method", "lock"),
            attr("owner", "A"),
            attr("since_height", "20")
        ])
    );
    assert_eq!(
        lock_of(&lock),
        LockResponse {
            since_height: 20,
            owner: Some(addr("A"))
        }
    );

    let r = execute(&mut lock, &whitelist, &addr("B"), 21, ExecuteMsg::Lock {});
    assert_eq!(
        r,
        Err(ContractError::AlreadyLocked { address: addr("A") })
    );
    assert_eq!(
        lock_of(&lock),
        LockResponse {
            since_height: 20,
            owner: Some(addr("A"))
        }
    );

    let r = execute(&mut lock, &whitelist, &addr("C"), 22, ExecuteMsg::Lock {});
    assert_eq!(r, Err(unauthorized("not whitelisted")));

    let r = execute(&mut lock, &whitelist, &addr("A"), 30, ExecuteMsg::Unlock {});
    assert_eq!(
        r,
        Ok(vec![
            attr("method", "unlock"),
            attr("owner", "none"),
            attr("since_height", "30")
        ])
    );
    assert_eq!(
        lock_of(&lock),
        LockResponse {
            since_height: 30,
            owner: None
        }
    );

    let r = execute(&mut lock, &whitelist, &addr("A"), 31, ExecuteMsg::Unlock {});
    assert_eq!(r, Err(ContractError::AlreadyUnlocked));
    assert_eq!(
        lock_of(&lock),
        LockResponse {
            since_height: 30,
            owner: None
        }
    );
}

#[test]
fn outsider_refused_on_free_and_held_lock() {
    let (mut lock, whitelist) = setup(1);
    let before = lock.clone();
    assert_eq!(
        execute_lock(&mut lock, &whitelist, &addr("Z"), 5),
        Err(unauthorized("not whitelisted"))
    );
    assert_eq!(lock, before);

    execute_lock(&mut lock, &whitelist, &addr("A"), 6).unwrap();
    let held = lock.clone();
    assert_eq!(
        execute_lock(&mut lock, &whitelist, &addr("Z"), 7),
        Err(unauthorized("not whitelisted"))
    );
    assert_eq!(lock, held);
}

#[test]
fn member_takes_free_lock() {
    let (mut lock, whitelist) = setup(3);
    assert!(execute_lock(&mut lock, &whitelist, &addr("B"), 9).is_ok());
    assert_eq!(
        lock,
        Lock {
            since_height: 9,
            owner: Some(addr("B"))
        }
    );
}

#[test]
fn owner_cannot_take_again() {
    let (mut lock, whitelist) = setup(3);
    execute_lock(&mut lock, &whitelist, &addr("A"), 4).unwrap();
    let held = lock.clone();
    assert_eq!(
        execute_lock(&mut lock, &whitelist, &addr("A"), 5),
        Err(ContractError::AlreadyLocked { address: addr("A") })
    );
    assert_eq!(lock, held);
}

#[test]
fn refusal_names_owner_not_caller() {
    let (mut lock, whitelist) = setup(3);
    execute_lock(&mut lock, &whitelist, &addr("A"), 4).unwrap();
    assert_eq!(
        execute_lock(&mut lock, &whitelist, &addr("B"), 5),
        Err(ContractError::AlreadyLocked { address: addr("A") })
    );
}

#[test]
fn owner_releases() {
    let mut lock = Lock {
        since_height: 4,
        owner: Some(addr("A")),
    };
    assert!(execute_unlock(&mut lock, &addr("A"), 12).is_ok());
    assert_eq!(
        lock,
        Lock {
            since_height: 12,
            owner: None
        }
    );
}

#[test]
fn non_owner_cannot_release() {
    let mut lock = Lock {
        since_height: 4,
        owner: Some(addr("A")),
    };
    let held = lock.clone();
    assert_eq!(
        execute_unlock(&mut lock, &addr("B"), 12),
        Err(unauthorized("not owner of the lock"))
    );
    assert_eq!(lock, held);
}

#[test]
fn free_lock_refuses_release_from_anyone() {
    let mut lock = Lock {
        since_height: 4,
        owner: None,
    };
    let free = lock.clone();
    assert_eq!(
        execute_unlock(&mut lock, &addr("A"), 5),
        Err(ContractError::AlreadyUnlocked)
    );
    assert_eq!(
        execute_unlock(&mut lock, &addr("outsider"), 6),
        Err(ContractError::AlreadyUnlocked)
    );
    assert_eq!(lock, free);
}

#[test]
fn second_release_refused() {
    let mut lock = Lock {
        since_height: 4,
        owner: Some(addr("A")),
    };
    assert!(execute_unlock(&mut lock, &addr("A"), 8).is_ok());
    assert_eq!(
        execute_unlock(&mut lock, &addr("A"), 8),
        Err(ContractError::AlreadyUnlocked)
    );
    assert_eq!(
        lock,
        Lock {
            since_height: 8,
            owner: None
        }
    );
}

#[test]
fn queries_reflect_state() {
    let (mut lock, whitelist) = setup(10);
    assert_eq!(
        query(&lock, &whitelist, QueryMsg::Lock {}),
        QueryResponse::Lock(LockResponse {
            since_height: 10,
            owner: None
        })
    );
    assert_eq!(
        query(&lock, &whitelist, QueryMsg::Whitelist {}),
        QueryResponse::Whitelist(WhitelistResponse {
            members: vec![addr("A"), addr("B")]
        })
    );
    execute(&mut lock, &whitelist, &addr("B"), 11, ExecuteMsg::Lock {}).unwrap();
    assert_eq!(
        query(&lock, &whitelist, QueryMsg::Lock {}),
        QueryResponse::Lock(LockResponse {
            since_height: 11,
            owner: Some(addr("B"))
        })
    );
    assert_eq!(
        query_whitelist(&whitelist),
        WhitelistResponse {
            members: vec![addr("A"), addr("B")]
        }
    );
}

#[test]
fn instantiate_keeps_whitelist_verbatim() {
    let (lock, whitelist) = instantiate(
        0,
        InstantiateMsg {
            whitelist: vec![addr("B"), addr("A"), addr("B")],
        },
    );
    assert_eq!(
        lock,
        Lock {
            since_height: 0,
            owner: None
        }
    );
    assert_eq!(
        query_whitelist(&whitelist).members,
        vec![addr("B"), addr("A"), addr("B")]
    );
}

#[test]
fn decimal_heights() {
    assert_eq!(decimal_string(0), "0");
    assert_eq!(decimal_string(7), "7");
    assert_eq!(decimal_string(10), "10");
    assert_eq!(decimal_string(1234567890), "1234567890");
    assert_eq!(decimal_string(u64::MAX), "18446744073709551615");
}

#[test]
fn event_carries_largest_height() {
    let (mut lock, whitelist) = setup(0);
    let r = execute_lock(&mut lock, &whitelist, &addr("A"), u64::MAX).unwrap();
    assert_eq!(r[2], attr("since_height", "18446744073709551615"));
}
