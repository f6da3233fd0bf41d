use hello_world::{Error, HelloContract, Identity};
use soroban_sdk::testutils::{Address as TestAddressTrait, ContractFunctionSet, EnvTestConfig};
use soroban_sdk::{Address, Env, Val};

struct Host;

impl ContractFunctionSet for Host {
    fn call(&self, _func: &str, _env: Env, _args: &[Val]) -> Option<Val> {
        None
    }
}

fn new_env() -> Env {
    Env::new_with_config(EnvTestConfig {
        capture_snapshot_at_drop: false,
    })
}

fn gen_addr(env: &Env) -> Identity {
    let strkey = <Address as TestAddressTrait>::generate(env)
        .to_string()
        .to_string();
    Identity::new(&strkey).expect("identity")
}

#[test]
fn uninitialized_registry_refuses_admin_operations() {
    let env = new_env();
    let contract_id = env.register(Host, ());
    let alguien = gen_addr(&env);
    let otro = gen_addr(&env);

    env.as_contract(&contract_id, || {
        let mut c = HelloContract::new(env.clone()).expect("no contract is executing");
        assert_eq!(
            c.set_limit(&alguien, 5),
            Err(Error::NoInicializado)
        );
        assert_eq!(
            c.reset_contador(&alguien),
            Err(Error::NoInicializado)
        );
        assert_eq!(
            c.transfer_admin(&alguien, &otro),
            Err(Error::NoInicializado)
        );
        assert_eq!(c.get_limit(), 32);
        assert_eq!(c.get_contador(), 0);
        assert_eq!(c.get_contador_usuario(&alguien), 0);
        assert_eq!(c.get_ultimo_saludo(&alguien), None);
        // Still uninitialized: the refused calls recorded nothing.
        assert_eq!(c.initialize(&alguien), Ok(()));
    });
}

#[test]
fn uninitialized_registry_accepts_greetings() {
    let env = new_env();
    let contract_id = env.register(Host, ());
    let usuario = gen_addr(&env);

    env.as_contract(&contract_id, || {
        let mut c = HelloContract::new(env.clone()).expect("no contract is executing");
        assert_eq!(
            c.hello(&usuario, "Ana"),
            Ok("Hola".to_string())
        );
        assert_eq!(c.get_contador(), 1);
        assert_eq!(c.get_contador_usuario(&usuario), 1);
    });
}

#[test]
fn second_initialize_keeps_the_first_state() {
    let env = new_env();
    let contract_id = env.register(Host, ());
    let admin = gen_addr(&env);
    let intruso = gen_addr(&env);
    let usuario = gen_addr(&env);

    env.as_contract(&contract_id, || {
        let mut c = HelloContract::new(env.clone()).expect("no contract is executing");
        assert_eq!(c.initialize(&admin), Ok(()));
        c.set_limit(&admin, 16).expect("set_limit failed");
        c.hello(&usuario, "Ana").expect("hello failed");

        assert_eq!(
            c.initialize(&intruso),
            Err(Error::NoInicializado)
        );

        assert_eq!(c.get_contador(), 1);
        assert_eq!(c.get_limit(), 16);
        assert_eq!(
            c.reset_contador(&intruso),
            Err(Error::NoAutorizado)
        );
        assert_eq!(c.reset_contador(&admin), Ok(()));
    });
}

#[test]
fn empty_greeting_changes_no_count() {
    let env = new_env();
    let contract_id = env.register(Host, ());
    let admin = gen_addr(&env);
    let usuario = gen_addr(&env);

    env.as_contract(&contract_id, || {
        let mut c = HelloContract::new(env.clone()).expect("no contract is executing");
        c.initialize(&admin).expect("init fail");
        c.hello(&usuario, "Ana").expect("hello failed");

        assert_eq!(
            c.hello(&usuario, ""),
            Err(Error::NombreVacio)
        );
        assert_eq!(
            c.try_hello(&usuario, ""),
            Some(Err(Error::NombreVacio))
        );

        assert_eq!(c.get_contador(), 1);
        assert_eq!(c.get_contador_usuario(&usuario), 1);
        assert_eq!(
            c.get_ultimo_saludo(&usuario),
            Some("Ana".to_string())
        );
    });
}

#[test]
fn default_limit_is_32_serialized_bytes() {
    let env = new_env();
    let contract_id = env.register(Host, ());
    let admin = gen_addr(&env);
    let usuario = gen_addr(&env);

    env.as_contract(&contract_id, || {
        let mut c = HelloContract::new(env.clone()).expect("no contract is executing");
        c.initialize(&admin).expect("init fail");
        assert_eq!(c.get_limit(), 32);

        // 24 bytes and 8 of framing: 32. 25 bytes are filled up to 28: 36.
        let justo = "a".repeat(24);
        let largo = "a".repeat(25);
        assert_eq!(c.hello(&usuario, &largo), Err(Error::NombreMuyLargo));
        assert_eq!(c.hello(&usuario, &"a".repeat(32)), Err(Error::NombreMuyLargo));
        assert_eq!(c.get_contador(), 0);
        assert_eq!(c.get_contador_usuario(&usuario), 0);
        assert_eq!(c.get_ultimo_saludo(&usuario), None);

        assert_eq!(c.hello(&usuario, &justo), Ok("Hola".to_string()));
        assert_eq!(c.get_contador(), 1);
        assert_eq!(c.get_ultimo_saludo(&usuario), Some(justo));
        // 21 bytes are filled up to 24 and come to 32 as well.
        assert_eq!(c.hello(&usuario, &"a".repeat(21)), Ok("Hola".to_string()));
        assert_eq!(c.get_contador(), 2);
    });
}

#[test]
fn length_is_that_of_the_serialized_form() {
    let env = new_env();
    let contract_id = env.register(Host, ());
    let admin = gen_addr(&env);
    let usuario = gen_addr(&env);

    env.as_contract(&contract_id, || {
        let mut c = HelloContract::new(env.clone()).expect("no contract is executing");
        c.initialize(&admin).expect("init fail");

        // 13 characters of two bytes each: 26 bytes, 36 serialized.
        let largo = "ñ".repeat(13);
        assert_eq!(c.hello(&usuario, &largo), Err(Error::NombreMuyLargo));
        // 12 characters of two bytes each: 24 bytes, 32 serialized.
        let justo = "ñ".repeat(12);
        assert_eq!(c.hello(&usuario, &justo), Ok("Hola".to_string()));
        assert_eq!(c.get_ultimo_saludo(&usuario), Some(justo));

        // One to four bytes are serialized in 12, five to eight in 16.
        c.set_limit(&admin, 12).expect("set_limit failed");
        assert_eq!(c.hello(&usuario, "n"), Ok("Hola".to_string()));
        assert_eq!(c.hello(&usuario, "ñ"), Ok("Hola".to_string()));
        assert_eq!(c.hello(&usuario, "ññ"), Ok("Hola".to_string()));
        assert_eq!(c.hello(&usuario, "ñññ"), Err(Error::NombreMuyLargo));
        assert_eq!(c.hello(&usuario, "nnnnn"), Err(Error::NombreMuyLargo));
        c.set_limit(&admin, 15).expect("set_limit failed");
        assert_eq!(c.hello(&usuario, "nnnnn"), Err(Error::NombreMuyLargo));
        c.set_limit(&admin, 16).expect("set_limit failed");
        assert_eq!(c.hello(&usuario, "nnnnn"), Ok("Hola".to_string()));

        // Below 12 no greeting passes.
        c.set_limit(&admin, 11).expect("set_limit failed");
        assert_eq!(c.hello(&usuario, "n"), Err(Error::NombreMuyLargo));
        assert_eq!(c.hello(&usuario, ""), Err(Error::NombreVacio));
        assert_eq!(c.get_contador(), 5);
    });
}

#[test]
fn greeting_raises_only_its_own_user() {
    let env = new_env();
    let contract_id = env.register(Host, ());
    let admin = gen_addr(&env);
    let ana = gen_addr(&env);
    let luis = gen_addr(&env);

    env.as_contract(&contract_id, || {
        let mut c = HelloContract::new(env.clone()).expect("no contract is executing");
        c.initialize(&admin).expect("init fail");

        c.hello(&ana, "uno").expect("hello failed");
        c.hello(&luis, "dos").expect("hello failed");
        c.hello(&ana, "tres").expect("hello failed");

        assert_eq!(c.get_contador(), 3);
        assert_eq!(c.get_contador_usuario(&ana), 2);
        assert_eq!(c.get_contador_usuario(&luis), 1);
        assert_eq!(
            c.get_ultimo_saludo(&ana),
            Some("tres".to_string())
        );
        assert_eq!(
            c.get_ultimo_saludo(&luis),
            Some("dos".to_string())
        );
    });
}

#[test]
fn reset_leaves_user_counts() {
    let env = new_env();
    let contract_id = env.register(Host, ());
    let admin = gen_addr(&env);
    let usuario = gen_addr(&env);

    env.as_contract(&contract_id, || {
        let mut c = HelloContract::new(env.clone()).expect("no contract is executing");
        c.initialize(&admin).expect("init fail");
        c.hello(&usuario, "Ana").expect("hello failed");
        c.hello(&usuario, "Eva").expect("hello failed");

        assert_eq!(
            c.reset_contador(&usuario),
            Err(Error::NoAutorizado)
        );
        assert_eq!(c.get_contador(), 2);

        assert_eq!(c.reset_contador(&admin), Ok(()));
        assert_eq!(c.get_contador(), 0);
        assert_eq!(c.get_contador_usuario(&usuario), 2);
        assert_eq!(
            c.get_ultimo_saludo(&usuario),
            Some("Eva".to_string())
        );
        assert_eq!(c.get_limit(), 32);
    });
}

#[test]
fn transfer_moves_every_admin_right() {
    let env = new_env();
    let contract_id = env.register(Host, ());
    let admin = gen_addr(&env);
    let nuevo = gen_addr(&env);

    env.as_contract(&contract_id, || {
        let mut c = HelloContract::new(env.clone()).expect("no contract is executing");
        c.initialize(&admin).expect("init fail");
        assert_eq!(
            c.transfer_admin(&nuevo, &nuevo),
            Err(Error::NoAutorizado)
        );
        assert_eq!(c.transfer_admin(&admin, &nuevo), Ok(()));

        assert_eq!(
            c.set_limit(&admin, 3),
            Err(Error::NoAutorizado)
        );
        assert_eq!(
            c.reset_contador(&admin),
            Err(Error::NoAutorizado)
        );
        assert_eq!(
            c.transfer_admin(&admin, &admin),
            Err(Error::NoAutorizado)
        );
        assert_eq!(c.get_limit(), 32);

        assert_eq!(c.set_limit(&nuevo, 3), Ok(()));
        assert_eq!(c.get_limit(), 3);
        assert_eq!(c.reset_contador(&nuevo), Ok(()));
        assert_eq!(c.transfer_admin(&nuevo, &admin), Ok(()));
        assert_eq!(c.reset_contador(&admin), Ok(()));
    });
}

#[test]
fn scenario_first_greeting() {
    let env = new_env();
    let contract_id = env.register(Host, ());
    let a = gen_addr(&env);
    let u = gen_addr(&env);

    env.as_contract(&contract_id, || {
        let mut c = HelloContract::new(env.clone()).expect("no contract is executing");
        assert_eq!(c.initialize(&a), Ok(()));
        assert_eq!(c.hello(&u, "Ana"), Ok("Hola".to_string()));
        assert_eq!(c.get_contador(), 1);
        assert_eq!(c.get_contador_usuario(&u), 1);
        assert_eq!(
            c.get_ultimo_saludo(&u),
            Some("Ana".to_string())
        );
    });
}

#[test]
fn scenario_limit_of_two() {
    let env = new_env();
    let contract_id = env.register(Host, ());
    let a = gen_addr(&env);
    let u = gen_addr(&env);

    env.as_contract(&contract_id, || {
        let mut c = HelloContract::new(env.clone()).expect("no contract is executing");
        assert_eq!(c.initialize(&a), Ok(()));
        assert_eq!(c.set_limit(&a, 2), Ok(()));
        assert_eq!(c.hello(&u, "ABC"), Err(Error::NombreMuyLargo));
        // The serialized form of "AB" has 12 bytes, so a limit of 2 refuses
        // it too; a limit of 12 lets it pass and still refuses five letters.
        assert_eq!(c.hello(&u, "AB"), Err(Error::NombreMuyLargo));
        assert_eq!(c.get_contador(), 0);
        assert_eq!(c.set_limit(&a, 12), Ok(()));
        assert_eq!(c.hello(&u, "ABCDE"), Err(Error::NombreMuyLargo));
        assert_eq!(c.hello(&u, "AB"), Ok("Hola".to_string()));
        assert_eq!(c.get_contador(), 1);
    });
}

#[test]
fn no_registry_outside_a_contract() {
    let env = new_env();
    let contract_id = env.register(Host, ());
    assert!(HelloContract::new(env.clone()).is_none());
    env.as_contract(&contract_id, || {
        assert!(HelloContract::new(env.clone()).is_some());
    });
    assert!(HelloContract::new(env.clone()).is_none());
}

#[test]
fn greeting_too_long_for_the_host() {
    let env = new_env();
    let contract_id = env.register(Host, ());
    let admin = gen_addr(&env);
    let usuario = gen_addr(&env);
    // One byte more than the host serializes: 8 bytes of framing and these,
    // filled up to a multiple of four, pass 32 MiB.
    let enorme = "a".repeat(33_554_425);

    env.as_contract(&contract_id, || {
        let mut c = HelloContract::new(env.clone()).expect("no contract is executing");
        c.initialize(&admin).expect("init fail");

        // Under a limit that the host can reach, the greeting is too long.
        assert_eq!(c.hello(&usuario, &enorme), Err(Error::NombreMuyLargo));
        assert_eq!(
            c.try_hello(&usuario, &enorme),
            Some(Err(Error::NombreMuyLargo))
        );
        c.set_limit(&admin, 33_554_432).expect("set_limit failed");
        assert_eq!(
            c.try_hello(&usuario, &enorme),
            Some(Err(Error::NombreMuyLargo))
        );

        // Under a greater limit nobody can tell, and nothing is done.
        c.set_limit(&admin, 33_554_433).expect("set_limit failed");
        assert_eq!(c.try_hello(&usuario, &enorme), None);
        c.set_limit(&admin, u32::MAX).expect("set_limit failed");
        assert_eq!(c.try_hello(&usuario, &enorme), None);
        assert_eq!(c.try_hello(&usuario, ""), Some(Err(Error::NombreVacio)));
        assert_eq!(c.try_hello(&usuario, "Ana"), Some(Ok("Hola".to_string())));
        assert_eq!(c.get_contador(), 1);
        assert_eq!(c.get_ultimo_saludo(&usuario), Some("Ana".to_string()));
    });
}

#[test]
fn greeting_as_long_as_the_host_serializes() {
    let env = new_env();
    let contract_id = env.register(Host, ());
    let admin = gen_addr(&env);
    let usuario = gen_addr(&env);
    // With 8 bytes of framing, exactly 32 MiB. The resources of an
    // invocation end long before that, so the test lifts their limits.
    env.cost_estimate().budget().reset_unlimited();
    env.cost_estimate().disable_resource_limits();
    let grande = "a".repeat(33_554_424);

    env.as_contract(&contract_id, || {
        let mut c = HelloContract::new(env.clone()).expect("no contract is executing");
        c.initialize(&admin).expect("init fail");
        c.set_limit(&admin, 33_554_431).expect("set_limit failed");
        assert_eq!(
            c.try_hello(&usuario, &grande),
            Some(Err(Error::NombreMuyLargo))
        );
        assert_eq!(c.get_contador(), 0);
    });
}
